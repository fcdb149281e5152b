use vstd::prelude::*;
use vstd::string::*;
use crate::text::to_chars;

verus! {

/// Where the line that begins at `from` ends: behind its line feed, or at
/// the end of the text where no line feed follows.
pub open spec fn line_end(text: Seq<char>, from: int) -> int
    decreases text.len() - from,
{
    if from >= text.len() {
        text.len() as int
    } else if text[from] == '\n' {
        from + 1
    } else {
        line_end(text, from + 1)
    }
}

/// A line ends behind where it begins, and has a line feed at its end or
/// nowhere.
pub proof fn line_end_bounds(text: Seq<char>, from: int)
    requires
        0 <= from < text.len(),
    ensures
        from < line_end(text, from) <= text.len(),
        forall|i: int| from <= i < line_end(text, from) - 1 ==> text[i] != '\n',
        line_end(text, from) < text.len() ==> text[line_end(text, from) - 1] == '\n',
    decreases text.len() - from,
{
    if text[from] != '\n' {
        if from + 1 < text.len() {
            line_end_bounds(text, from + 1);
        } else {
            assert(line_end(text, from + 1) == text.len());
        }
        assert(line_end(text, from) == line_end(text, from + 1));
    }
}

/// The lines of `text` from offset `from` on, each with its line feed where
/// it has one. Put together they give `text[from ..]`; none is empty.
pub open spec fn lines_from(text: Seq<char>, from: int) -> Seq<Seq<char>>
    decreases text.len() - from,
    via lines_from_decreases
{
    if 0 <= from < text.len() {
        seq![text.subrange(from, line_end(text, from))] + lines_from(text, line_end(text, from))
    } else {
        Seq::empty()
    }
}

#[via_fn]
proof fn lines_from_decreases(text: Seq<char>, from: int) {
    if 0 <= from < text.len() {
        line_end_bounds(text, from);
    }
}

/// The lines of `text`, each with its line feed where it has one.
pub open spec fn lines_with_endings(text: Seq<char>) -> Seq<Seq<char>> {
    lines_from(text, 0)
}

/// The characters of each text.
pub open spec fn texts(items: Seq<String>) -> Seq<Seq<char>> {
    items.map_values(|s: String| s@)
}

/// All pieces, one after the other.
pub open spec fn joined(pieces: Seq<Seq<char>>) -> Seq<char>
    decreases pieces.len(),
{
    if pieces.len() == 0 {
        Seq::empty()
    } else {
        joined(pieces.drop_last()) + pieces.last()
    }
}

fn find_line_end(chars: &Vec<char>, from: usize) -> (r: usize)
    requires
        from <= chars.len(),
    ensures
        r == line_end(chars@, from as int),
        from <= r <= chars.len(),
{
    let mut at: usize = from;
    while at < chars.len()
        invariant
            from <= at <= chars.len(),
            line_end(chars@, from as int) == line_end(chars@, at as int),
        decreases chars.len() - at,
    {
        if chars[at] == '\n' {
            return at + 1;
        }
        at = at + 1;
    }
    at
}

/// Cuts `text` into its lines and keeps each line's line feed.
pub fn split_keeping_endings(text: &str) -> (r: Vec<String>)
    ensures
        texts(r@) == lines_with_endings(text@),
{
    let chars = to_chars(text);
    let n: usize = chars.len();
    let mut out: Vec<String> = Vec::new();
    let mut from: usize = 0;
    proof {
        assert(texts(out@) + lines_from(text@, 0) =~= lines_with_endings(text@));
    }
    while from < n
        invariant
            chars@ == text@,
            n == chars@.len(),
            from <= n,
            texts(out@) + lines_from(text@, from as int) == lines_with_endings(text@),
        decreases n - from,
    {
        let end = find_line_end(&chars, from);
        proof {
            line_end_bounds(text@, from as int);
        }
        let ghost before = texts(out@);
        out.push(text.substring_char(from, end).to_owned());
        proof {
            assert(texts(out@) =~= before + seq![text@.subrange(from as int, end as int)]);
            assert(before + (seq![text@.subrange(from as int, end as int)] + lines_from(
                text@,
                end as int,
            )) =~= texts(out@) + lines_from(text@, end as int));
        }
        from = end;
    }
    proof {
        assert(texts(out@) + lines_from(text@, from as int) =~= texts(out@));
    }
    out
}

/// What every line of a body begins with.
pub const INDENT: &'static str = "    ";

/// The piece ends in a line feed.
pub open spec fn ends_line(piece: Seq<char>) -> bool {
    piece.len() > 0 && piece.last() == '\n'
}

/// A line without its ending: without the line feed and, where a carriage
/// return stood before that, without the carriage return.
pub open spec fn without_ending(piece: Seq<char>) -> Seq<char> {
    if ends_line(piece) {
        let bare = piece.drop_last();
        if bare.len() > 0 && bare.last() == '\r' {
            bare.drop_last()
        } else {
            bare
        }
    } else {
        piece
    }
}

/// The lines of `text` as they are shown, without their endings. A line
/// feed at the very end begins no further line.
pub open spec fn display_lines(text: Seq<char>) -> Seq<Seq<char>> {
    lines_with_endings(text).map_values(|piece: Seq<char>| without_ending(piece))
}

/// A piece followed by the indent of the line that it opens, where it ends
/// a line.
pub open spec fn carried(piece: Seq<char>) -> Seq<char> {
    if ends_line(piece) {
        piece + INDENT@
    } else {
        piece
    }
}

/// `text` with the indent at its beginning and behind each of its line
/// feeds.
pub open spec fn indented_block(text: Seq<char>) -> Seq<char> {
    INDENT@ + joined(lines_with_endings(text).map_values(|piece: Seq<char>| carried(piece)))
}

fn ends_with_line_feed(piece: &str) -> (r: bool)
    ensures
        r == ends_line(piece@),
{
    let n: usize = piece.unicode_len();
    n > 0 && piece.get_char(n - 1) == '\n'
}

/// Takes the ending off a line.
pub fn strip_ending(piece: &str) -> (r: String)
    ensures
        r@ == without_ending(piece@),
{
    let chars = to_chars(piece);
    let n: usize = chars.len();
    if n > 0 && chars[n - 1] == '\n' {
        let end: usize = if n > 1 && chars[n - 2] == '\r' {
            n - 2
        } else {
            n - 1
        };
        proof {
            assert(piece@.drop_last() =~= piece@.subrange(0, n - 1));
            if n > 1 {
                assert(piece@.drop_last().last() == piece@[n - 2]);
                assert(piece@.drop_last().drop_last() =~= piece@.subrange(0, n - 2));
            }
        }
        piece.substring_char(0, end).to_owned()
    } else {
        piece.to_owned()
    }
}

/// Cuts `text` into the lines that are shown.
pub fn split_lines(text: &str) -> (r: Vec<String>)
    ensures
        texts(r@) == display_lines(text@),
{
    let pieces = split_keeping_endings(text);
    let mut out: Vec<String> = Vec::new();
    let mut i: usize = 0;
    while i < pieces.len()
        invariant
            i <= pieces.len(),
            texts(pieces@) == lines_with_endings(text@),
            texts(out@) == display_lines(text@).take(i as int),
        decreases pieces.len() - i,
    {
        let line = strip_ending(pieces[i].as_str());
        let ghost before = texts(out@);
        out.push(line);
        proof {
            assert(texts(pieces@)[i as int] == pieces@[i as int]@);
            assert(display_lines(text@)[i as int] == without_ending(pieces@[i as int]@));
            assert(texts(out@) =~= before.push(line@));
            assert(display_lines(text@).take(i + 1) =~= display_lines(text@).take(i as int).push(
                display_lines(text@)[i as int],
            ));
        }
        i = i + 1;
    }
    proof {
        assert(display_lines(text@).take(i as int) =~= display_lines(text@));
    }
    out
}

/// Indents a block: the indent goes before its first character and behind
/// each line feed.
pub fn indent_block(text: &str) -> (r: String)
    ensures
        r@ == indented_block(text@),
{
    let pieces = split_keeping_endings(text);
    let mut out: String = INDENT.to_owned();
    let mut i: usize = 0;
    let ghost carried_pieces = lines_with_endings(text@).map_values(
        |piece: Seq<char>| carried(piece),
    );
    proof {
        assert(carried_pieces.take(0) =~= Seq::<Seq<char>>::empty());
        assert(out@ =~= INDENT@ + joined(carried_pieces.take(0)));
    }
    while i < pieces.len()
        invariant
            i <= pieces.len(),
            texts(pieces@) == lines_with_endings(text@),
            carried_pieces == lines_with_endings(text@).map_values(
                |piece: Seq<char>| carried(piece),
            ),
            out@ == INDENT@ + joined(carried_pieces.take(i as int)),
        decreases pieces.len() - i,
    {
        let piece = pieces[i].as_str();
        out.append(piece);
        if ends_with_line_feed(piece) {
            out.append(INDENT);
        }
        proof {
            assert(texts(pieces@)[i as int] == pieces@[i as int]@);
            assert(carried_pieces.take(i + 1).drop_last() =~= carried_pieces.take(i as int));
            assert(carried_pieces.take(i + 1).last() == carried(piece@));
            assert(out@ =~= INDENT@ + joined(carried_pieces.take(i + 1)));
        }
        i = i + 1;
    }
    proof {
        assert(carried_pieces.take(i as int) =~= carried_pieces);
    }
    out
}

/// The lines of a text, put together again, give the text.
pub proof fn lines_keep_the_text(text: Seq<char>)
    ensures
        joined(lines_with_endings(text)) == text,
{
    lines_from_keep(text, 0);
    assert(text.subrange(0, text.len() as int) =~= text);
}

proof fn joined_front(first: Seq<char>, rest: Seq<Seq<char>>)
    ensures
        joined(seq![first] + rest) == first + joined(rest),
    decreases rest.len(),
{
    let all = seq![first] + rest;
    if rest.len() == 0 {
        assert(all.drop_last() =~= Seq::<Seq<char>>::empty());
        assert(joined(all.drop_last()) =~= Seq::<char>::empty());
        assert(joined(all) =~= first + joined(rest));
    } else {
        joined_front(first, rest.drop_last());
        assert(all.drop_last() =~= seq![first] + rest.drop_last());
        assert(all.last() == rest.last());
        assert(joined(all) =~= first + joined(rest));
    }
}

proof fn lines_from_keep(text: Seq<char>, from: int)
    requires
        0 <= from <= text.len(),
    ensures
        joined(lines_from(text, from)) == text.subrange(from, text.len() as int),
    decreases text.len() - from,
{
    if from < text.len() {
        line_end_bounds(text, from);
        let end = line_end(text, from);
        lines_from_keep(text, end);
        joined_front(text.subrange(from, end), lines_from(text, end));
        assert(text.subrange(from, end) + text.subrange(end, text.len() as int)
            =~= text.subrange(from, text.len() as int));
    } else {
        assert(text.subrange(from, text.len() as int) =~= Seq::<char>::empty());
    }
}

} // verus!
