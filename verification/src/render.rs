use vstd::prelude::*;
use vstd::string::*;
use crate::lines::{INDENT, indent_block, indented_block, joined, texts};
use crate::paint::{join_all, paint_each, paints_each};
use crate::record::{FragmentView, LogRecord, RecordView, StatementFragment};
use crate::style::{
    SpanView, StyleSpan, TextStyle, plain_text, plain_text_concat, plain_text_single, span_views,
};

verus! {

/// A span in contracts.
pub open spec fn span(text: Seq<char>, style: TextStyle) -> SpanView {
    SpanView { text, style }
}

/// A span without emphasis.
pub open spec fn plain_span(text: Seq<char>) -> SpanView {
    SpanView { text, style: TextStyle::spec_plain() }
}

/// A header field that is shown only where it has a value: its label,
/// plain, and the value in the field's attribute.
pub open spec fn optional_field(label: Seq<char>, value: Option<Seq<char>>, style: TextStyle) -> Seq<
    SpanView,
> {
    match value {
        Some(v) => seq![plain_span(label), span(v, style)],
        None => Seq::empty(),
    }
}

/// The three fields that every header has: the timestamp, dimmed; the
/// level, in the attribute of its severity; the process id, in cyan.
pub open spec fn header_core(record: RecordView) -> Seq<SpanView> {
    seq![
        span(record.timestamp, TextStyle::spec_dimmed()),
        plain_span(" "@),
        span(record.level, record.severity.spec_style()),
        plain_span(" pid="@),
        span(record.process_id, TextStyle::spec_colored(colored::Color::Cyan)),
    ]
}

/// The duration marker, in bold yellow, where a duration was found.
pub open spec fn duration_marker(fragment: FragmentView) -> Seq<SpanView> {
    match fragment.duration {
        Some(d) => seq![
            plain_span(" "@),
            span("duration: "@ + d, TextStyle::spec_bold(colored::Color::Yellow)),
        ],
        None => Seq::empty(),
    }
}

/// The header line of a record: timestamp, level and process id; then the
/// user, in blue, and the database, in magenta, each only where the record
/// has one; then the duration marker.
pub open spec fn header_of(record: RecordView, fragment: FragmentView) -> Seq<SpanView> {
    header_core(record) + optional_field(
        " user="@,
        record.user,
        TextStyle::spec_colored(colored::Color::Blue),
    ) + optional_field(
        " db="@,
        record.database,
        TextStyle::spec_colored(colored::Color::Magenta),
    ) + duration_marker(fragment)
}

fn push_span(out: &mut Vec<StyleSpan>, text: &str, style: TextStyle)
    ensures
        span_views(final(out)@) == span_views(old(out)@).push(span(text@, style)),
{
    out.push(StyleSpan::new(text, style));
    proof {
        assert(span_views(out@) =~= span_views(old(out)@).push(span(text@, style)));
    }
}

fn push_optional(out: &mut Vec<StyleSpan>, label: &str, value: &Option<String>, style: TextStyle)
    ensures
        span_views(final(out)@) == span_views(old(out)@) + optional_field(
            label@,
            crate::record::optional_text(*value),
            style,
        ),
{
    match value {
        Some(v) => {
            push_span(out, label, TextStyle::plain());
            push_span(out, v.as_str(), style);
            proof {
                assert(span_views(out@) =~= span_views(old(out)@) + optional_field(
                    label@,
                    crate::record::optional_text(*value),
                    style,
                ));
            }
        },
        None => {
            proof {
                assert(span_views(out@) =~= span_views(old(out)@) + optional_field(
                    label@,
                    crate::record::optional_text(*value),
                    style,
                ));
            }
        },
    }
}

/// Composes the header line of a record.
pub fn header_spans(record: &LogRecord, fragment: &StatementFragment) -> (r: Vec<StyleSpan>)
    ensures
        span_views(r@) == header_of(record@, fragment@),
{
    let mut out: Vec<StyleSpan> = Vec::new();
    push_span(&mut out, record.timestamp.as_str(), TextStyle::dimmed());
    push_span(&mut out, " ", TextStyle::plain());
    push_span(&mut out, record.level.as_str(), record.severity.style());
    push_span(&mut out, " pid=", TextStyle::plain());
    push_span(&mut out, record.process_id.as_str(), TextStyle::colored(colored::Color::Cyan));
    proof {
        assert(span_views(out@) =~= header_core(record@));
    }
    push_optional(&mut out, " user=", &record.user, TextStyle::colored(colored::Color::Blue));
    push_optional(
        &mut out,
        " db=",
        &record.database,
        TextStyle::colored(colored::Color::Magenta),
    );
    let ghost before = span_views(out@);
    match &fragment.duration {
        Some(d) => {
            let mut marker = "duration: ".to_owned();
            marker.append(d.as_str());
            push_span(&mut out, " ", TextStyle::plain());
            push_span(&mut out, marker.as_str(), TextStyle::bold(colored::Color::Yellow));
            proof {
                assert(span_views(out@) =~= before + duration_marker(fragment@));
            }
        },
        None => {
            proof {
                assert(span_views(out@) =~= before + duration_marker(fragment@));
            }
        },
    }
    out
}

/// The characters of the duration marker.
pub open spec fn duration_text(fragment: FragmentView) -> Seq<char> {
    match fragment.duration {
        Some(d) => " duration: "@ + d,
        None => Seq::empty(),
    }
}

/// A record without user and database has a header of timestamp, level and
/// process id, followed by nothing but the duration marker: neither the
/// label of the user nor that of the database is written.
pub proof fn header_without_optional_fields(record: RecordView, fragment: FragmentView)
    requires
        record.user is None,
        record.database is None,
    ensures
        header_of(record, fragment) == header_core(record) + duration_marker(fragment),
        plain_text(header_of(record, fragment)) == record.timestamp + " "@ + record.level
            + " pid="@ + record.process_id + duration_text(fragment),
{
    let core = header_core(record);
    let marker = duration_marker(fragment);
    assert(header_of(record, fragment) =~= core + marker);
    plain_text_concat(core, marker);
    let a = seq![core[0]];
    let b = seq![core[1]];
    let c = seq![core[2]];
    let d = seq![core[3]];
    let e = seq![core[4]];
    assert(core =~= a + b + c + d + e);
    plain_text_single(core[0]);
    plain_text_single(core[1]);
    plain_text_single(core[2]);
    plain_text_single(core[3]);
    plain_text_single(core[4]);
    plain_text_concat(a, b);
    plain_text_concat(a + b, c);
    plain_text_concat(a + b + c, d);
    plain_text_concat(a + b + c + d, e);
    match fragment.duration {
        Some(dur) => {
            let x = seq![marker[0]];
            let y = seq![marker[1]];
            assert(marker =~= x + y);
            plain_text_single(marker[0]);
            plain_text_single(marker[1]);
            plain_text_concat(x, y);
            reveal_strlit(" ");
            reveal_strlit("duration: ");
            reveal_strlit(" duration: ");
            assert(" "@ + ("duration: "@ + dur) =~= " duration: "@ + dur);
        },
        None => {
            assert(plain_text(marker) =~= Seq::<char>::empty());
        },
    }
    assert(plain_text(header_of(record, fragment)) =~= record.timestamp + " "@ + record.level
        + " pid="@ + record.process_id + duration_text(fragment));
}

/// What follows the header: a statement, formatted and annotated, or the
/// lines of a plain message, each cut into spans.
#[derive(Clone, Debug, PartialEq, Eq)]
pub enum Body {
    Statement(String),
    Message(Vec<Vec<StyleSpan>>),
}

/// A body in contracts.
pub enum BodyView {
    Statement(Seq<char>),
    Message(Seq<Seq<SpanView>>),
}

/// The spans of each line.
pub open spec fn line_views(lines: Seq<Vec<StyleSpan>>) -> Seq<Seq<SpanView>> {
    lines.map_values(|line: Vec<StyleSpan>| span_views(line@))
}

impl View for Body {
    type V = BodyView;

    open spec fn view(&self) -> BodyView {
        match *self {
            Body::Statement(text) => BodyView::Statement(text@),
            Body::Message(lines) => BodyView::Message(line_views(lines@)),
        }
    }
}

/// One record as it will be shown, before any colour is written.
#[derive(Clone, Debug, PartialEq, Eq)]
pub struct Rendering {
    pub header: Vec<StyleSpan>,
    pub body: Body,
}

/// A rendering in contracts.
pub struct RenderingView {
    pub header: Seq<SpanView>,
    pub body: BodyView,
}

impl View for Rendering {
    type V = RenderingView;

    open spec fn view(&self) -> RenderingView {
        RenderingView { header: span_views(self.header@), body: self.body@ }
    }
}

/// `shown` is a run of spans as a terminal takes it: the spans painted one
/// by one and put together.
pub open spec fn paints_line(spans: Seq<SpanView>, shown: Seq<char>) -> bool {
    exists|pieces: Seq<Seq<char>>| paints_each(spans, pieces) && shown == joined(pieces)
}

/// Paints a run of spans.
pub fn paint_line(spans: &Vec<StyleSpan>) -> (r: String)
    ensures
        paints_line(span_views(spans@), r@),
{
    let pieces = paint_each(spans);
    let out = join_all(&pieces);
    proof {
        assert(paints_each(span_views(spans@), texts(pieces@)) && out@ == joined(texts(pieces@)));
    }
    out
}

/// `shown` is a line of a message body: the indent, then the line painted.
pub open spec fn paints_body_line(spans: Seq<SpanView>, shown: Seq<char>) -> bool {
    exists|painted: Seq<char>| paints_line(spans, painted) && shown == INDENT@ + painted
}

/// `lines` are the output lines of a body. A statement is one entry: the
/// indented block, which holds its own line feeds. A message is one entry
/// for each of its lines.
pub open spec fn shows_body(body: BodyView, lines: Seq<Seq<char>>) -> bool {
    match body {
        BodyView::Statement(text) => lines == seq![indented_block(text)],
        BodyView::Message(spans) => {
            &&& lines.len() == spans.len()
            &&& forall|i: int| 0 <= i < spans.len() ==> paints_body_line(spans[i], #[trigger] lines[i])
        },
    }
}

/// `lines` are the output lines of a rendering: the header first, the body
/// behind it.
pub open spec fn shows(rendering: RenderingView, lines: Seq<Seq<char>>) -> bool {
    &&& lines.len() >= 1
    &&& paints_line(rendering.header, lines[0])
    &&& shows_body(rendering.body, lines.skip(1))
}

fn paint_body_line(spans: &Vec<StyleSpan>) -> (r: String)
    ensures
        paints_body_line(span_views(spans@), r@),
{
    let painted = paint_line(spans);
    let mut out = INDENT.to_owned();
    out.append(painted.as_str());
    proof {
        assert(paints_line(span_views(spans@), painted@) && out@ == INDENT@ + painted@);
    }
    out
}

/// Writes a rendering out as lines for the terminal: the header, then the
/// body with every line indented. Whether the attributes of the spans come
/// out as colour sequences is for the terminal and the environment to say.
pub fn show(rendering: &Rendering) -> (r: Vec<String>)
    ensures
        shows(rendering@, texts(r@)),
{
    let mut out: Vec<String> = Vec::new();
    out.push(paint_line(&rendering.header));
    match &rendering.body {
        Body::Statement(text) => {
            out.push(indent_block(text.as_str()));
            proof {
                assert(texts(out@).skip(1) =~= seq![indented_block(text@)]);
            }
        },
        Body::Message(lines) => {
            let mut i: usize = 0;
            while i < lines.len()
                invariant
                    i <= lines.len(),
                    out.len() == i + 1,
                    paints_line(span_views(rendering.header@), out@[0]@),
                    forall|j: int|
                        0 <= j < i ==> paints_body_line(
                            span_views(lines@[j]@),
                            #[trigger] out@[j + 1]@,
                        ),
                decreases lines.len() - i,
            {
                out.push(paint_body_line(&lines[i]));
                i = i + 1;
            }
            proof {
                let shown = texts(out@).skip(1);
                let spans = line_views(lines@);
                assert forall|j: int| 0 <= j < spans.len() implies paints_body_line(
                    spans[j],
                    #[trigger] shown[j],
                ) by {
                    assert(paints_body_line(span_views(lines@[j]@), out@[j + 1]@));
                }
            }
        },
    }
    out
}

} // verus!
