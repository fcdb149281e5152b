use vstd::prelude::*;
use vstd::string::*;
use crate::lines::{joined, texts};
use crate::style::{SpanView, StyleSpan, TextStyle, span_views};
use crate::text::occurs_at;

verus! {

/// The escape character, with which every terminal sequence begins.
pub const ESCAPE: char = '\u{1b}';

/// The sequence that ends all colouring.
pub const RESET: &'static str = "\u{1b}[0m";

/// A character of the codes of a colour sequence: a digit or a semicolon.
pub open spec fn is_code_char(c: char) -> bool {
    ('0' <= c && c <= '9') || c == ';'
}

/// A colour sequence: the escape character, an opening square bracket,
/// codes, and the letter `m`.
pub open spec fn is_sequence(s: Seq<char>) -> bool {
    &&& s.len() >= 3
    &&& s[0] == ESCAPE
    &&& s[1] == '['
    &&& s.last() == 'm'
    &&& forall|i: int| 2 <= i < s.len() - 1 ==> is_code_char(#[trigger] s[i])
}

/// The reset sequence stands nowhere in the text.
pub open spec fn reset_free(text: Seq<char>) -> bool {
    forall|at: int| !#[trigger] occurs_at(text, at, RESET@)
}

/// `shown` is `text` as a terminal takes it in the attribute `style`: the
/// text itself where the style is plain or colours are switched off;
/// otherwise, for a text in which the reset sequence does not stand, the
/// text with a colour sequence before it and the reset sequence behind it.
pub open spec fn paints(text: Seq<char>, style: TextStyle, shown: Seq<char>) -> bool {
    &&& style.is_plain() ==> shown == text
    &&& reset_free(text) ==> shown == text || exists|lead: Seq<char>|
        is_sequence(lead) && shown == lead + text + RESET@
}

/// `ColoredString` with the three parts of the attribute set, then its
/// `Display`. Whether colours are written depends on the terminal and on
/// the environment; a plain attribute never writes any. Where they are
/// written, the sequence before the text is made of the codes of weight,
/// background and foreground, which are digits, with semicolons between;
/// a reset sequence inside the text would have the codes written again
/// behind it, so the shape is stated of texts without one.
#[verifier::external_body]
pub(crate) fn paint(text: &str, style: &TextStyle) -> (r: String)
    ensures
        paints(text@, *style, r@),
{
    let mut painted = colored::ColoredString::from(text);
    painted.fgcolor = style.foreground;
    painted.bgcolor = style.background;
    painted.style = colored::Style::from(style.weight);
    painted.to_string()
}

/// Each piece shows the span at its place.
pub open spec fn paints_each(spans: Seq<SpanView>, pieces: Seq<Seq<char>>) -> bool {
    &&& pieces.len() == spans.len()
    &&& forall|i: int|
        0 <= i < spans.len() ==> paints(spans[i].text, spans[i].style, #[trigger] pieces[i])
}

/// Paints every span of a run.
pub fn paint_each(spans: &Vec<StyleSpan>) -> (r: Vec<String>)
    ensures
        paints_each(span_views(spans@), texts(r@)),
{
    let mut out: Vec<String> = Vec::new();
    let mut i: usize = 0;
    while i < spans.len()
        invariant
            i <= spans.len(),
            out.len() == i,
            forall|j: int|
                0 <= j < i ==> paints(spans@[j]@.text, spans@[j]@.style, #[trigger] out@[j]@),
        decreases spans.len() - i,
    {
        let piece = paint(spans[i].text.as_str(), &spans[i].style);
        out.push(piece);
        i = i + 1;
    }
    proof {
        assert forall|j: int| 0 <= j < span_views(spans@).len() implies paints(
            span_views(spans@)[j].text,
            span_views(spans@)[j].style,
            #[trigger] texts(out@)[j],
        ) by {
            assert(paints(spans@[j]@.text, spans@[j]@.style, out@[j]@));
        }
    }
    out
}

/// Puts pieces together, one after the other.
pub fn join_all(pieces: &Vec<String>) -> (r: String)
    ensures
        r@ == joined(texts(pieces@)),
{
    let mut out = String::new();
    let mut i: usize = 0;
    proof {
        assert(texts(pieces@).take(0) =~= Seq::<Seq<char>>::empty());
    }
    while i < pieces.len()
        invariant
            i <= pieces.len(),
            out@ == joined(texts(pieces@).take(i as int)),
        decreases pieces.len() - i,
    {
        out.append(pieces[i].as_str());
        proof {
            let all = texts(pieces@);
            assert(all.take(i + 1).drop_last() =~= all.take(i as int));
            assert(all.take(i + 1).last() == pieces@[i as int]@);
        }
        i = i + 1;
    }
    proof {
        assert(texts(pieces@).take(i as int) =~= texts(pieces@));
    }
    out
}

} // verus!
