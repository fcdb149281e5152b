use vstd::prelude::*;

verus! {

/// `colored::Color`: the colours of a terminal, by name or by number.
#[verifier::external_type_specification]
pub struct ExColor(colored::Color);

/// `colored::Styles`: the weights and decorations of a terminal.
#[verifier::external_type_specification]
pub struct ExStyles(colored::Styles);

/// `colored::Style`: a set of `colored::Styles`. No signature here names
/// it; it is declared because the operators of `colored::Styles` return
/// it, and Verus reads those with the declaration of `colored::Styles`.
#[verifier::external_type_specification]
#[verifier::external_body]
pub struct ExStyleSet(colored::Style);

/// A display attribute: an optional foreground colour, an optional
/// background colour and a weight.
#[derive(Clone, Copy, Debug, PartialEq, Eq)]
pub struct TextStyle {
    pub foreground: Option<colored::Color>,
    pub background: Option<colored::Color>,
    pub weight: colored::Styles,
}

impl TextStyle {
    /// A style that leaves text as it is.
    pub open spec fn is_plain(self) -> bool {
        self.foreground is None && self.background is None && self.weight
            == colored::Styles::Clear
    }

    /// No colour and normal weight.
    pub open spec fn spec_plain() -> TextStyle {
        TextStyle { foreground: None, background: None, weight: colored::Styles::Clear }
    }

    /// Normal weight in the given foreground colour.
    pub open spec fn spec_colored(color: colored::Color) -> TextStyle {
        TextStyle { foreground: Some(color), background: None, weight: colored::Styles::Clear }
    }

    /// Bold in the given foreground colour.
    pub open spec fn spec_bold(color: colored::Color) -> TextStyle {
        TextStyle { foreground: Some(color), background: None, weight: colored::Styles::Bold }
    }

    /// Dimmed, in the terminal's own colours.
    pub open spec fn spec_dimmed() -> TextStyle {
        TextStyle { foreground: None, background: None, weight: colored::Styles::Dimmed }
    }

    /// Bold white on a red background.
    pub open spec fn spec_alarm() -> TextStyle {
        TextStyle {
            foreground: Some(colored::Color::White),
            background: Some(colored::Color::Red),
            weight: colored::Styles::Bold,
        }
    }

    /// No colour and normal weight.
    #[verifier::when_used_as_spec(spec_plain)]
    pub fn plain() -> (r: TextStyle)
        ensures
            r == TextStyle::spec_plain(),
            r.is_plain(),
    {
        TextStyle { foreground: None, background: None, weight: colored::Styles::Clear }
    }

    /// Normal weight in the given foreground colour.
    #[verifier::when_used_as_spec(spec_colored)]
    pub fn colored(color: colored::Color) -> (r: TextStyle)
        ensures
            r == TextStyle::spec_colored(color),
    {
        TextStyle { foreground: Some(color), background: None, weight: colored::Styles::Clear }
    }

    /// Bold in the given foreground colour.
    #[verifier::when_used_as_spec(spec_bold)]
    pub fn bold(color: colored::Color) -> (r: TextStyle)
        ensures
            r == TextStyle::spec_bold(color),
    {
        TextStyle { foreground: Some(color), background: None, weight: colored::Styles::Bold }
    }

    /// Dimmed, in the terminal's own colours.
    #[verifier::when_used_as_spec(spec_dimmed)]
    pub fn dimmed() -> (r: TextStyle)
        ensures
            r == TextStyle::spec_dimmed(),
    {
        TextStyle { foreground: None, background: None, weight: colored::Styles::Dimmed }
    }

    /// Bold white on a red background.
    #[verifier::when_used_as_spec(spec_alarm)]
    pub fn alarm() -> (r: TextStyle)
        ensures
            r == TextStyle::spec_alarm(),
    {
        TextStyle {
            foreground: Some(colored::Color::White),
            background: Some(colored::Color::Red),
            weight: colored::Styles::Bold,
        }
    }
}

/// A run of text tagged with one display attribute.
#[derive(Clone, Debug, PartialEq, Eq)]
pub struct StyleSpan {
    pub text: String,
    pub style: TextStyle,
}

/// What a span is in contracts: its characters and its attribute.
pub struct SpanView {
    pub text: Seq<char>,
    pub style: TextStyle,
}

impl View for StyleSpan {
    type V = SpanView;

    open spec fn view(&self) -> SpanView {
        SpanView { text: self.text@, style: self.style }
    }
}

impl StyleSpan {
    /// A span of `text` in `style`.
    pub fn new(text: &str, style: TextStyle) -> (r: StyleSpan)
        ensures
            r@ == (SpanView { text: text@, style: style }),
    {
        StyleSpan { text: text.to_owned(), style }
    }
}

/// The views of a run of spans, in order.
pub open spec fn span_views(spans: Seq<StyleSpan>) -> Seq<SpanView> {
    spans.map_values(|s: StyleSpan| s@)
}

/// The characters of a run of spans with every attribute dropped.
pub open spec fn plain_text(spans: Seq<SpanView>) -> Seq<char>
    decreases spans.len(),
{
    if spans.len() == 0 {
        Seq::empty()
    } else {
        plain_text(spans.drop_last()) + spans.last().text
    }
}

/// The text of two runs of spans, one after the other, is the text of the
/// first followed by the text of the second.
pub proof fn plain_text_concat(a: Seq<SpanView>, b: Seq<SpanView>)
    ensures
        plain_text(a + b) == plain_text(a) + plain_text(b),
    decreases b.len(),
{
    if b.len() == 0 {
        assert(a + b =~= a);
        assert(plain_text(b) =~= Seq::<char>::empty());
        assert(plain_text(a) + plain_text(b) =~= plain_text(a));
    } else {
        plain_text_concat(a, b.drop_last());
        assert((a + b).drop_last() =~= a + b.drop_last());
        assert((a + b).last() == b.last());
        assert(plain_text(a + b) =~= plain_text(a) + plain_text(b));
    }
}

/// The text of a single span.
pub proof fn plain_text_single(s: SpanView)
    ensures
        plain_text(seq![s]) == s.text,
{
    let one = seq![s];
    assert(one.drop_last() =~= Seq::<SpanView>::empty());
    assert(plain_text(one.drop_last()) =~= Seq::<char>::empty());
    assert(plain_text(one) =~= s.text);
}

} // verus!
