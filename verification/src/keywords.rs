use vstd::prelude::*;
use vstd::string::*;
use crate::style::{SpanView, StyleSpan, TextStyle, span_views};
use crate::text::{matches_at, occurs_at, to_chars};

verus! {

/// The words that are set off in a plain message body.
#[derive(Clone, Copy, Debug, PartialEq, Eq, Structural)]
pub enum Keyword {
    Checkpoint,
    Complete,
    Starting,
    Autovacuum,
}

impl Keyword {
    /// The word as it stands in a message.
    pub open spec fn word(self) -> Seq<char> {
        match self {
            Keyword::Checkpoint => "checkpoint"@,
            Keyword::Complete => "complete"@,
            Keyword::Starting => "starting"@,
            Keyword::Autovacuum => "autovacuum"@,
        }
    }

    /// The display attribute of the word.
    pub open spec fn spec_style(self) -> TextStyle {
        match self {
            Keyword::Checkpoint => TextStyle::spec_bold(colored::Color::Cyan),
            Keyword::Complete => TextStyle::spec_bold(colored::Color::Green),
            Keyword::Starting => TextStyle::spec_bold(colored::Color::Yellow),
            Keyword::Autovacuum => TextStyle::spec_bold(colored::Color::Magenta),
        }
    }

    /// The span that shows the word.
    pub open spec fn span(self) -> SpanView {
        SpanView { text: self.word(), style: self.spec_style() }
    }

    /// The word.
    pub fn text(self) -> (r: &'static str)
        ensures
            r@ == self.word(),
    {
        match self {
            Keyword::Checkpoint => "checkpoint",
            Keyword::Complete => "complete",
            Keyword::Starting => "starting",
            Keyword::Autovacuum => "autovacuum",
        }
    }

    /// The display attribute that the word is shown in.
    pub fn style(self) -> (r: TextStyle)
        ensures
            r == self.spec_style(),
    {
        match self {
            Keyword::Checkpoint => TextStyle::bold(colored::Color::Cyan),
            Keyword::Complete => TextStyle::bold(colored::Color::Green),
            Keyword::Starting => TextStyle::bold(colored::Color::Yellow),
            Keyword::Autovacuum => TextStyle::bold(colored::Color::Magenta),
        }
    }
}

/// The length of each keyword; none is shown plain.
pub proof fn keyword_facts(k: Keyword)
    ensures
        k.word().len() == (match k {
            Keyword::Checkpoint => 10nat,
            Keyword::Complete => 8nat,
            Keyword::Starting => 8nat,
            Keyword::Autovacuum => 10nat,
        }),
        !k.spec_style().is_plain(),
{
    reveal_strlit("checkpoint");
    reveal_strlit("complete");
    reveal_strlit("starting");
    reveal_strlit("autovacuum");
}

/// The keyword that starts at offset `at` of `text`, if one does.
pub open spec fn keyword_at(text: Seq<char>, at: int) -> Option<Keyword> {
    if occurs_at(text, at, Keyword::Checkpoint.word()) {
        Some(Keyword::Checkpoint)
    } else if occurs_at(text, at, Keyword::Complete.word()) {
        Some(Keyword::Complete)
    } else if occurs_at(text, at, Keyword::Starting.word()) {
        Some(Keyword::Starting)
    } else if occurs_at(text, at, Keyword::Autovacuum.word()) {
        Some(Keyword::Autovacuum)
    } else {
        None
    }
}

/// The plain span for `text[from, to)`, or nothing where that is empty.
pub open spec fn plain_piece(text: Seq<char>, from: int, to: int) -> Seq<SpanView> {
    if from < to {
        seq![SpanView { text: text.subrange(from, to), style: TextStyle::spec_plain() }]
    } else {
        Seq::empty()
    }
}

/// One pass over `text` from offset `at`, with `text[pending, at)` read and
/// not yet given out: each keyword met becomes a span of its own, and the
/// characters between two keywords become one plain span.
pub open spec fn scan(text: Seq<char>, pending: int, at: int) -> Seq<SpanView>
    decreases text.len() - at,
    via scan_decreases
{
    if at >= text.len() {
        plain_piece(text, pending, text.len() as int)
    } else {
        match keyword_at(text, at) {
            Some(k) => plain_piece(text, pending, at) + seq![k.span()] + scan(
                text,
                at + k.word().len(),
                at + k.word().len(),
            ),
            None => scan(text, pending, at + 1),
        }
    }
}

#[via_fn]
proof fn scan_decreases(text: Seq<char>, pending: int, at: int) {
    if at < text.len() {
        if let Some(k) = keyword_at(text, at) {
            keyword_facts(k);
        }
    }
}

/// The spans of a plain message body.
pub open spec fn emphasis(text: Seq<char>) -> Seq<SpanView> {
    scan(text, 0, 0)
}

/// The keyword that starts at offset `at`, looked up with the four words
/// as characters.
fn keyword_starting_at(
    chars: &Vec<char>,
    at: usize,
    checkpoint: &Vec<char>,
    complete: &Vec<char>,
    starting: &Vec<char>,
    autovacuum: &Vec<char>,
) -> (r: Option<Keyword>)
    requires
        checkpoint@ == Keyword::Checkpoint.word(),
        complete@ == Keyword::Complete.word(),
        starting@ == Keyword::Starting.word(),
        autovacuum@ == Keyword::Autovacuum.word(),
    ensures
        r == keyword_at(chars@, at as int),
{
    if matches_at(chars, at, checkpoint) {
        Some(Keyword::Checkpoint)
    } else if matches_at(chars, at, complete) {
        Some(Keyword::Complete)
    } else if matches_at(chars, at, starting) {
        Some(Keyword::Starting)
    } else if matches_at(chars, at, autovacuum) {
        Some(Keyword::Autovacuum)
    } else {
        None
    }
}

/// Adds the plain span for `message[from, to)` to `out`, if it is not empty.
fn push_plain(out: &mut Vec<StyleSpan>, message: &str, from: usize, to: usize)
    requires
        from <= to <= message@.len(),
    ensures
        span_views(final(out)@) == span_views(old(out)@) + plain_piece(
            message@,
            from as int,
            to as int,
        ),
{
    if from < to {
        let piece = StyleSpan::new(message.substring_char(from, to), TextStyle::plain());
        out.push(piece);
        proof {
            assert(span_views(out@) =~= span_views(old(out)@) + plain_piece(
                message@,
                from as int,
                to as int,
            ));
        }
    } else {
        proof {
            assert(span_views(out@) =~= span_views(old(out)@) + plain_piece(
                message@,
                from as int,
                to as int,
            ));
        }
    }
}

/// Cuts a plain message body into spans in one pass over its characters:
/// every keyword becomes a span in its own attribute, the text between
/// keywords stays plain. Nothing that was given out is read again.
pub fn emphasize(message: &str) -> (r: Vec<StyleSpan>)
    ensures
        span_views(r@) == emphasis(message@),
{
    let chars = to_chars(message);
    let checkpoint = to_chars(Keyword::Checkpoint.text());
    let complete = to_chars(Keyword::Complete.text());
    let starting = to_chars(Keyword::Starting.text());
    let autovacuum = to_chars(Keyword::Autovacuum.text());
    let n: usize = chars.len();
    let mut out: Vec<StyleSpan> = Vec::new();
    let mut pending: usize = 0;
    let mut at: usize = 0;
    proof {
        assert(span_views(out@) + scan(message@, 0, 0) =~= emphasis(message@));
    }
    while at < n
        invariant
            chars@ == message@,
            n == chars@.len(),
            pending <= at <= n,
            checkpoint@ == Keyword::Checkpoint.word(),
            complete@ == Keyword::Complete.word(),
            starting@ == Keyword::Starting.word(),
            autovacuum@ == Keyword::Autovacuum.word(),
            span_views(out@) + scan(message@, pending as int, at as int) == emphasis(message@),
        decreases n - at,
    {
        let found = keyword_starting_at(&chars, at, &checkpoint, &complete, &starting, &autovacuum);
        match found {
            Some(k) => {
                proof {
                    keyword_facts(k);
                }
                let ghost before = span_views(out@);
                push_plain(&mut out, message, pending, at);
                let width: usize = match k {
                    Keyword::Checkpoint => checkpoint.len(),
                    Keyword::Complete => complete.len(),
                    Keyword::Starting => starting.len(),
                    Keyword::Autovacuum => autovacuum.len(),
                };
                let ghost middle = span_views(out@);
                out.push(StyleSpan::new(k.text(), k.style()));
                proof {
                    assert(span_views(out@) =~= middle + seq![k.span()]);
                    assert(before + (plain_piece(message@, pending as int, at as int) + seq![
                        k.span(),
                    ] + scan(message@, at + width, at + width)) =~= span_views(out@) + scan(
                        message@,
                        at + width,
                        at + width,
                    ));
                }
                at = at + width;
                pending = at;
            },
            None => {
                at = at + 1;
            },
        }
    }
    push_plain(&mut out, message, pending, n);
    out
}

} // verus!
