use vstd::prelude::*;
use crate::lines::{INDENT, joined};
use crate::paint::{ESCAPE, RESET, is_code_char, is_sequence, paints, paints_each, reset_free};
use crate::render::{BodyView, RenderingView, paints_body_line, paints_line, shows};
use crate::style::{SpanView, TextStyle, plain_text};
use crate::text::occurs_at;

verus! {

/// The text holds no escape character.
pub open spec fn escape_free(text: Seq<char>) -> bool {
    forall|i: int| 0 <= i < text.len() ==> text[i] != ESCAPE
}

/// What is left of `shown` when its colour sequences are taken out, read
/// from a place inside a sequence (`inside`) or outside of one: a sequence
/// runs from an escape character to the next letter `m`.
pub open spec fn visible_from(shown: Seq<char>, inside: bool) -> Seq<char>
    decreases shown.len(),
{
    if shown.len() == 0 {
        Seq::empty()
    } else if inside {
        visible_from(shown.drop_first(), shown[0] != 'm')
    } else if shown[0] == ESCAPE {
        visible_from(shown.drop_first(), true)
    } else {
        seq![shown[0]] + visible_from(shown.drop_first(), false)
    }
}

/// The characters that a terminal shows of `shown`.
pub open spec fn visible_text(shown: Seq<char>) -> Seq<char> {
    visible_from(shown, false)
}

/// No span of the run holds an escape character.
pub open spec fn spans_escape_free(spans: Seq<SpanView>) -> bool {
    forall|i: int| 0 <= i < spans.len() ==> escape_free(#[trigger] spans[i].text)
}

proof fn visible_after_text(text: Seq<char>, rest: Seq<char>)
    requires
        escape_free(text),
    ensures
        visible_from(text + rest, false) == text + visible_from(rest, false),
    decreases text.len(),
{
    if text.len() == 0 {
        assert(text + rest =~= rest);
        assert(text + visible_from(rest, false) =~= visible_from(rest, false));
    } else {
        let all = text + rest;
        assert(all[0] == text[0]);
        assert(all.drop_first() =~= text.drop_first() + rest);
        assert forall|i: int| 0 <= i < text.drop_first().len() implies text.drop_first()[i]
            != ESCAPE by {
            assert(text.drop_first()[i] == text[i + 1]);
        }
        visible_after_text(text.drop_first(), rest);
        assert(seq![text[0]] + (text.drop_first() + visible_from(rest, false)) =~= text
            + visible_from(rest, false));
    }
}

proof fn visible_after_codes(codes: Seq<char>, rest: Seq<char>)
    requires
        forall|i: int| 0 <= i < codes.len() ==> is_code_char(#[trigger] codes[i]),
    ensures
        visible_from(codes + rest, true) == visible_from(rest, true),
    decreases codes.len(),
{
    if codes.len() == 0 {
        assert(codes + rest =~= rest);
    } else {
        let all = codes + rest;
        assert(all[0] == codes[0]);
        assert(is_code_char(codes[0]));
        assert(all.drop_first() =~= codes.drop_first() + rest);
        assert forall|i: int| 0 <= i < codes.drop_first().len() implies is_code_char(
            #[trigger] codes.drop_first()[i],
        ) by {
            assert(codes.drop_first()[i] == codes[i + 1]);
        }
        visible_after_codes(codes.drop_first(), rest);
    }
}

proof fn visible_after_sequence(lead: Seq<char>, rest: Seq<char>)
    requires
        is_sequence(lead),
    ensures
        visible_from(lead + rest, false) == visible_from(rest, false),
{
    let n = lead.len() as int;
    let codes = lead.subrange(2, n - 1);
    let tail = seq!['m'] + rest;
    let all = lead + rest;
    assert(all[0] == ESCAPE);
    let second = all.drop_first();
    assert(second[0] == '[');
    let third = second.drop_first();
    assert(third =~= codes + tail);
    assert forall|i: int| 0 <= i < codes.len() implies is_code_char(#[trigger] codes[i]) by {
        assert(codes[i] == lead[i + 2]);
    }
    visible_after_codes(codes, tail);
    assert(tail[0] == 'm');
    assert(tail.drop_first() =~= rest);
    assert(visible_from(tail, true) == visible_from(rest, false));
    assert(visible_from(second, true) == visible_from(third, true));
    assert(visible_from(all, false) == visible_from(second, true));
}

proof fn reset_is_a_sequence()
    ensures
        is_sequence(RESET@),
{
    reveal_strlit("\u{1b}[0m");
    assert(RESET@.len() == 4);
    assert(RESET@[2] == '0');
}

/// A text without escape characters holds no reset sequence.
pub proof fn escape_free_is_reset_free(text: Seq<char>)
    requires
        escape_free(text),
    ensures
        reset_free(text),
{
    reveal_strlit("\u{1b}[0m");
    assert forall|at: int| !#[trigger] occurs_at(text, at, RESET@) by {
        if occurs_at(text, at, RESET@) {
            assert(RESET@.len() == 4);
            assert(text.subrange(at, at + 4)[0] == text[at]);
            assert(RESET@[0] == ESCAPE);
        }
    }
}

proof fn visible_after_painted(
    text: Seq<char>,
    style: TextStyle,
    shown: Seq<char>,
    rest: Seq<char>,
)
    requires
        paints(text, style, shown),
        escape_free(text),
    ensures
        visible_from(shown + rest, false) == text + visible_from(rest, false),
{
    escape_free_is_reset_free(text);
    if shown == text {
        visible_after_text(text, rest);
    } else {
        let lead = choose|lead: Seq<char>| is_sequence(lead) && shown == lead + text + RESET@;
        reset_is_a_sequence();
        assert(shown + rest =~= lead + (text + (RESET@ + rest)));
        visible_after_sequence(lead, text + (RESET@ + rest));
        visible_after_text(text, RESET@ + rest);
        visible_after_sequence(RESET@, rest);
    }
}

proof fn visible_after_pieces(spans: Seq<SpanView>, pieces: Seq<Seq<char>>, rest: Seq<char>)
    requires
        paints_each(spans, pieces),
        spans_escape_free(spans),
    ensures
        visible_from(joined(pieces) + rest, false) == plain_text(spans) + visible_from(
            rest,
            false,
        ),
    decreases spans.len(),
{
    if spans.len() == 0 {
        assert(joined(pieces) + rest =~= rest);
        assert(plain_text(spans) + visible_from(rest, false) =~= visible_from(rest, false));
    } else {
        let front = spans.drop_last();
        let front_pieces = pieces.drop_last();
        let last = spans.last();
        assert(paints(last.text, last.style, pieces.last()));
        assert(escape_free(last.text));
        assert forall|i: int| 0 <= i < front.len() implies paints(
            front[i].text,
            front[i].style,
            #[trigger] front_pieces[i],
        ) by {
            assert(paints(spans[i].text, spans[i].style, pieces[i]));
        }
        assert forall|i: int| 0 <= i < front.len() implies escape_free(
            #[trigger] front[i].text,
        ) by {
            assert(escape_free(spans[i].text));
        }
        visible_after_pieces(front, front_pieces, pieces.last() + rest);
        visible_after_painted(last.text, last.style, pieces.last(), rest);
        assert(joined(pieces) + rest =~= joined(front_pieces) + (pieces.last() + rest));
        assert(plain_text(front) + (last.text + visible_from(rest, false)) =~= plain_text(spans)
            + visible_from(rest, false));
    }
}

/// A painted run of spans shows the text of its spans: with the colour
/// sequences taken out, what is left are their characters, in order. This
/// holds of spans without escape characters, whatever the terminal.
pub proof fn painted_line_shows_its_text(spans: Seq<SpanView>, shown: Seq<char>)
    requires
        paints_line(spans, shown),
        spans_escape_free(spans),
    ensures
        visible_text(shown) == plain_text(spans),
{
    let pieces = choose|pieces: Seq<Seq<char>>|
        paints_each(spans, pieces) && shown == joined(pieces);
    visible_after_pieces(spans, pieces, Seq::empty());
    assert(joined(pieces) + Seq::<char>::empty() =~= joined(pieces));
    assert(plain_text(spans) + Seq::<char>::empty() =~= plain_text(spans));
}

/// The header line of a shown rendering holds the header's text, and each
/// line of a shown message body holds the indent and its line's text.
pub proof fn shown_lines_keep_the_text(rendering: RenderingView, lines: Seq<Seq<char>>, i: int)
    requires
        shows(rendering, lines),
        spans_escape_free(rendering.header),
        rendering.body matches BodyView::Message(body) ==> 0 <= i < body.len()
            && spans_escape_free(body[i]),
    ensures
        visible_text(lines[0]) == plain_text(rendering.header),
        rendering.body matches BodyView::Message(body) ==> visible_text(lines[i + 1]) == INDENT@
            + plain_text(body[i]),
{
    painted_line_shows_its_text(rendering.header, lines[0]);
    match rendering.body {
        BodyView::Message(body) => {
            let shown = lines.skip(1)[i];
            assert(shown == lines[i + 1]);
            assert(paints_body_line(body[i], shown));
            let painted = choose|painted: Seq<char>|
                paints_line(body[i], painted) && shown == INDENT@ + painted;
            painted_line_shows_its_text(body[i], painted);
            reveal_strlit("    ");
            assert(escape_free(INDENT@)) by {
                assert(INDENT@.len() == 4);
            }
            visible_after_text(INDENT@, painted);
        },
        BodyView::Statement(_) => {},
    }
}

} // verus!
