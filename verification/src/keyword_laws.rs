use vstd::prelude::*;
use crate::keywords::{Keyword, emphasis, keyword_at, keyword_facts, plain_piece, scan};
use crate::style::{SpanView, plain_text, plain_text_concat, plain_text_single};
use crate::text::occurs_at;

verus! {

/// The offset in the whole text at which span `j` of `spans` begins.
pub open spec fn span_start(spans: Seq<SpanView>, j: int) -> int {
    plain_text(spans.take(j)).len() as int
}

/// What holds of one span that begins at offset `start` of `text`: it holds
/// the characters that stand there and at least one of them; a plain span
/// has no keyword beginning inside it; any other span is exactly the keyword
/// that begins at `start`, in that keyword's attribute.
pub open spec fn span_fits(text: Seq<char>, start: int, span: SpanView) -> bool {
    &&& span.text.len() > 0
    &&& occurs_at(text, start, span.text)
    &&& span.style.is_plain() ==> forall|q: int|
        start <= q < start + span.text.len() ==> keyword_at(text, q) is None
    &&& !span.style.is_plain() ==> exists|k: Keyword| #[trigger]
        keyword_at(text, start) == Some(k) && span == k.span()
}

proof fn char_of_occurrence(text: Seq<char>, at: int, word: Seq<char>, m: int)
    requires
        occurs_at(text, at, word),
        0 <= m < word.len(),
    ensures
        text[at + m] == word[m],
{
    assert(text.subrange(at, at + word.len())[m] == text[at + m]);
}

/// No keyword begins inside another occurrence of a keyword.
#[verifier::rlimit(50)]
pub proof fn keywords_do_not_overlap(text: Seq<char>, at: int, d: int)
    requires
        keyword_at(text, at) is Some,
        0 < d < keyword_at(text, at).unwrap().word().len(),
    ensures
        keyword_at(text, at + d) is None,
{
    reveal_strlit("checkpoint");
    reveal_strlit("complete");
    reveal_strlit("starting");
    reveal_strlit("autovacuum");
    let k = keyword_at(text, at).unwrap();
    let w = k.word();
    assert(occurs_at(text, at, w));
    char_of_occurrence(text, at, w, d);
    if d + 1 < w.len() {
        char_of_occurrence(text, at, w, d + 1);
    }
    if keyword_at(text, at + d) is Some {
        let k2 = keyword_at(text, at + d).unwrap();
        let w2 = k2.word();
        assert(occurs_at(text, at + d, w2));
        char_of_occurrence(text, at + d, w2, 0);
        char_of_occurrence(text, at + d, w2, 1);
        assert(w2[0] == 'c' || w2[0] == 's' || w2[0] == 'a');
        assert(w[d] == w2[0]);
        assert(d + 1 < w.len());
        assert(w[d + 1] == w2[1]);
        assert(false);
    }
}

proof fn span_start_in_concat(a: Seq<SpanView>, b: Seq<SpanView>, j: int)
    requires
        0 <= j <= a.len() + b.len(),
    ensures
        j <= a.len() ==> span_start(a + b, j) == span_start(a, j),
        j >= a.len() ==> span_start(a + b, j) == plain_text(a).len() + span_start(
            b,
            j - a.len(),
        ),
{
    if j <= a.len() {
        assert((a + b).take(j) =~= a.take(j));
    }
    if j >= a.len() {
        assert((a + b).take(j) =~= a + b.take(j - a.len()));
        plain_text_concat(a, b.take(j - a.len()));
    }
}

/// What one pass from offset `at` gives, with `text[pending, at)` free of
/// keyword beginnings: the spans hold `text[pending ..]`, each fits where it
/// begins, and every keyword beginning from `pending` on begins a span that
/// is not plain.
#[verifier::rlimit(50)]
proof fn scan_marks(text: Seq<char>, pending: int, at: int)
    requires
        0 <= pending <= at <= text.len(),
        forall|q: int| pending <= q < at ==> keyword_at(text, q) is None,
    ensures
        plain_text(scan(text, pending, at)) == text.subrange(pending, text.len() as int),
        forall|j: int|
            0 <= j < scan(text, pending, at).len() ==> span_fits(
                text,
                pending + span_start(scan(text, pending, at), j),
                #[trigger] scan(text, pending, at)[j],
            ),
        forall|q: int|
            pending <= q < text.len() && keyword_at(text, q) is Some ==> exists|j: int|
                0 <= j < scan(text, pending, at).len() && pending + #[trigger] span_start(
                    scan(text, pending, at),
                    j,
                ) == q && !scan(text, pending, at)[j].style.is_plain(),
    decreases text.len() - at,
{
    let n = text.len() as int;
    let spans = scan(text, pending, at);
    if at >= n {
        let piece = plain_piece(text, pending, n);
        assert(spans == piece);
        if pending < n {
            plain_text_single(piece[0]);
            assert(piece.take(0) =~= Seq::<SpanView>::empty());
            assert(span_start(piece, 0) == 0);
        } else {
            assert(text.subrange(pending, n) =~= Seq::<char>::empty());
        }
    } else {
        match keyword_at(text, at) {
            Some(k) => {
                keyword_facts(k);
                let end = at + k.word().len();
                let lead = plain_piece(text, pending, at);
                let head = lead + seq![k.span()];
                let rest = scan(text, end, end);
                assert(spans == head + rest);
                scan_marks(text, end, end);
                plain_text_single(k.span());
                plain_text_concat(lead, seq![k.span()]);
                plain_text_concat(head, rest);
                if pending < at {
                    plain_text_single(lead[0]);
                } else {
                    assert(plain_text(lead) =~= Seq::<char>::empty());
                }
                assert(plain_text(lead) =~= text.subrange(pending, at));
                assert(plain_text(head) =~= text.subrange(pending, end));
                assert(plain_text(spans) =~= text.subrange(pending, n));
                assert forall|j: int| 0 <= j < spans.len() implies span_fits(
                    text,
                    pending + span_start(spans, j),
                    #[trigger] spans[j],
                ) by {
                    span_start_in_concat(head, rest, j);
                    if j < head.len() {
                        span_start_in_concat(lead, seq![k.span()], j);
                        if j < lead.len() {
                            assert(lead.take(0) =~= Seq::<SpanView>::empty());
                            assert(span_start(lead, 0) == 0);
                            assert(spans[j] == lead[0]);
                        } else {
                            assert(seq![k.span()].take(0) =~= Seq::<SpanView>::empty());
                            assert(spans[j] == k.span());
                            assert(pending + span_start(spans, j) == at);
                        }
                    } else {
                        assert(spans[j] == rest[j - head.len()]);
                        assert(pending + span_start(spans, j) == end + span_start(
                            rest,
                            j - head.len(),
                        ));
                    }
                }
                assert forall|q: int|
                    pending <= q < n && keyword_at(text, q) is Some implies exists|j: int|
                    0 <= j < spans.len() && pending + #[trigger] span_start(spans, j) == q
                        && !spans[j].style.is_plain() by {
                    if q < at {
                    } else if q == at {
                        let j = lead.len() as int;
                        span_start_in_concat(head, rest, j);
                        span_start_in_concat(lead, seq![k.span()], j);
                        assert(seq![k.span()].take(0) =~= Seq::<SpanView>::empty());
                        assert(spans[j] == k.span());
                        assert(pending + span_start(spans, j) == q);
                    } else if q < end {
                        keywords_do_not_overlap(text, at, q - at);
                    } else {
                        let jr = choose|jr: int|
                            0 <= jr < rest.len() && end + #[trigger] span_start(rest, jr) == q
                                && !rest[jr].style.is_plain();
                        let j = head.len() + jr;
                        span_start_in_concat(head, rest, j);
                        assert(spans[j] == rest[jr]);
                        assert(pending + span_start(spans, j) == q);
                    }
                }
            },
            None => {
                scan_marks(text, pending, at + 1);
            },
        }
    }
}

/// The spans of a message hold the message: put together again, with the
/// attributes dropped, they give every character back, in order.
pub proof fn emphasis_keeps_the_text(text: Seq<char>)
    ensures
        plain_text(emphasis(text)) == text,
{
    scan_marks(text, 0, 0);
    assert(text.subrange(0, text.len() as int) =~= text);
}

/// Every span of a message is either plain text in which no keyword begins,
/// or exactly one keyword in that keyword's attribute; none is empty.
pub proof fn emphasis_spans_fit(text: Seq<char>, j: int)
    requires
        0 <= j < emphasis(text).len(),
    ensures
        span_fits(text, span_start(emphasis(text), j), emphasis(text)[j]),
{
    scan_marks(text, 0, 0);
}

/// Each place where a keyword begins in a message is the beginning of a
/// span in that keyword's attribute, and of one span only.
pub proof fn emphasis_marks_each_keyword_once(text: Seq<char>, at: int)
    requires
        keyword_at(text, at) is Some,
    ensures
        exists|j: int|
            0 <= j < emphasis(text).len() && #[trigger] span_start(emphasis(text), j) == at
                && emphasis(text)[j] == keyword_at(text, at).unwrap().span(),
        forall|i: int, j: int|
            0 <= i < j < emphasis(text).len() ==> span_start(emphasis(text), i) < span_start(
                emphasis(text),
                j,
            ),
{
    let spans = emphasis(text);
    let k = keyword_at(text, at).unwrap();
    keyword_facts(k);
    assert(occurs_at(text, at, k.word()));
    scan_marks(text, 0, 0);
    let j = choose|j: int|
        0 <= j < spans.len() && #[trigger] span_start(spans, j) == at
            && !spans[j].style.is_plain();
    assert(span_fits(text, span_start(spans, j), spans[j]));
    assert forall|i: int, j: int| 0 <= i < j < spans.len() implies span_start(spans, i)
        < span_start(spans, j) by {
        span_starts_grow(text, i, j);
    }
}

proof fn span_start_step(spans: Seq<SpanView>, j: int)
    requires
        0 < j <= spans.len(),
    ensures
        span_start(spans, j) == span_start(spans, j - 1) + spans[j - 1].text.len(),
{
    assert(spans.take(j).drop_last() =~= spans.take(j - 1));
    assert(spans.take(j).last() == spans[j - 1]);
}

proof fn span_starts_grow(text: Seq<char>, i: int, j: int)
    requires
        0 <= i < j <= emphasis(text).len(),
    ensures
        span_start(emphasis(text), i) < span_start(emphasis(text), j),
    decreases j - i,
{
    emphasis_spans_fit(text, j - 1);
    span_start_step(emphasis(text), j);
    if i < j - 1 {
        span_starts_grow(text, i, j - 1);
    }
}

} // verus!
