use vstd::prelude::*;
use crate::error::SetupError;
use crate::freetext::{FreeTextReader, LEADING_BLOCK, LEVEL_TOKEN, free_text_record};
use crate::highlight::{
    Annotator, STATEMENT_EXTENSION, THEME_NAME, a_built_set_lacks, bundled_theme, grammar_for,
};
use crate::keyword_laws::emphasis_keeps_the_text;
use crate::keywords::{emphasis, emphasize};
use crate::layout::{format_statement, formatted};
use crate::lines::{display_lines, split_lines, texts};
use crate::pattern::{captures_of, compiled};
use crate::record::{FragmentView, LogRecord, RecordView};
use crate::render::{
    Body, BodyView, Rendering, RenderingView, duration_marker, duration_text, header_core,
    header_of, header_spans, header_without_optional_fields, line_views,
};
use crate::statement::{BARE_STATEMENT, StatementDetector, TIMED_STATEMENT, fragment_of};
use crate::structured::{
    DATABASE_KEY, USER_KEY, decode, decoded, read_structured, string_members, structured_record,
};
use crate::style::{SpanView, StyleSpan, TextStyle, plain_text, span_views};

verus! {

/// The record of a line. A line that decodes as JSON is a structured
/// record, whatever it holds; any other line is read as free text. `None`
/// where the line is neither.
pub open spec fn record_of(line: Seq<char>) -> Option<RecordView> {
    match decoded(line) {
        Some(value) => Some(structured_record(value)),
        None => free_text_record(line),
    }
}

/// The statement fragment of a message.
pub open spec fn fragment_in(message: Seq<char>) -> FragmentView {
    fragment_of(captures_of(TIMED_STATEMENT@, message), captures_of(BARE_STATEMENT@, message))
}

/// The spans of each line of a plain message.
pub open spec fn message_body(message: Seq<char>) -> Seq<Seq<SpanView>> {
    display_lines(message).map_values(|line: Seq<char>| emphasis(line))
}

/// The body of a record: where its message holds a statement, the
/// statement formatted and annotated; otherwise the message line by line,
/// with its keywords set off.
pub open spec fn body_of(record: RecordView, annotator: Annotator) -> BodyView {
    match fragment_in(record.message).statement {
        Some(statement) => BodyView::Statement(annotator.spec_annotate(formatted(statement))),
        None => BodyView::Message(message_body(record.message)),
    }
}

/// A record as it will be shown.
pub open spec fn rendering_of(record: RecordView, annotator: Annotator) -> RenderingView {
    RenderingView {
        header: header_of(record, fragment_in(record.message)),
        body: body_of(record, annotator),
    }
}

/// The marker that stands before a line that could not be read.
pub const INVALID_MARKER: &'static str = "[INVALID INPUT]";

/// The diagnostic for a line that is neither a structured record nor free
/// text: the marker in bold red, then the line as it came.
pub open spec fn invalid_input_of(line: Seq<char>) -> Seq<SpanView> {
    seq![
        SpanView { text: INVALID_MARKER@, style: TextStyle::spec_bold(colored::Color::Red) },
        SpanView { text: " "@, style: TextStyle::spec_plain() },
        SpanView { text: line, style: TextStyle::spec_plain() },
    ]
}

/// Composes the diagnostic for a line that could not be read.
pub fn invalid_input_spans(line: &str) -> (r: Vec<StyleSpan>)
    ensures
        span_views(r@) == invalid_input_of(line@),
{
    let mut out: Vec<StyleSpan> = Vec::new();
    out.push(StyleSpan::new(INVALID_MARKER, TextStyle::bold(colored::Color::Red)));
    out.push(StyleSpan::new(" ", TextStyle::plain()));
    out.push(StyleSpan::new(line, TextStyle::plain()));
    proof {
        assert(span_views(out@) =~= invalid_input_of(line@));
    }
    out
}

/// The marker that stands before the report of a failed read.
pub const READ_FAULT_MARKER: &'static str = "[READ ERROR]";

/// The diagnostic for a failed read of the input: the marker in bold red,
/// then what the input reported.
pub open spec fn read_fault_of(detail: Seq<char>) -> Seq<SpanView> {
    seq![
        SpanView { text: READ_FAULT_MARKER@, style: TextStyle::spec_bold(colored::Color::Red) },
        SpanView { text: " "@, style: TextStyle::spec_plain() },
        SpanView { text: detail, style: TextStyle::spec_plain() },
    ]
}

/// Composes the diagnostic for a failed read of the input.
pub fn read_fault_spans(detail: &str) -> (r: Vec<StyleSpan>)
    ensures
        span_views(r@) == read_fault_of(detail@),
{
    let mut out: Vec<StyleSpan> = Vec::new();
    out.push(StyleSpan::new(READ_FAULT_MARKER, TextStyle::bold(colored::Color::Red)));
    out.push(StyleSpan::new(" ", TextStyle::plain()));
    out.push(StyleSpan::new(detail, TextStyle::plain()));
    proof {
        assert(span_views(out@) =~= read_fault_of(detail@));
    }
    out
}

/// Cuts each line of a plain message into spans.
pub fn message_lines(message: &str) -> (r: Vec<Vec<StyleSpan>>)
    ensures
        line_views(r@) == message_body(message@),
{
    let lines = split_lines(message);
    let mut out: Vec<Vec<StyleSpan>> = Vec::new();
    let mut i: usize = 0;
    while i < lines.len()
        invariant
            i <= lines.len(),
            texts(lines@) == display_lines(message@),
            line_views(out@) == message_body(message@).take(i as int),
        decreases lines.len() - i,
    {
        let ghost before = line_views(out@);
        let spans = emphasize(lines[i].as_str());
        out.push(spans);
        proof {
            assert(texts(lines@)[i as int] == lines@[i as int]@);
            assert(line_views(out@) =~= before.push(emphasis(lines@[i as int]@)));
            assert(message_body(message@).take(i + 1) =~= message_body(message@).take(
                i as int,
            ).push(message_body(message@)[i as int]));
        }
        i = i + 1;
    }
    proof {
        assert(message_body(message@).take(i as int) =~= message_body(message@));
    }
    out
}

/// The first of the library's patterns that does not compile, in the order
/// in which they are compiled; `None` where all four compile.
pub open spec fn first_bad_pattern() -> Option<Seq<char>> {
    if compiled(LEADING_BLOCK@) is None {
        Some(LEADING_BLOCK@)
    } else if compiled(LEVEL_TOKEN@) is None {
        Some(LEVEL_TOKEN@)
    } else if compiled(TIMED_STATEMENT@) is None {
        Some(TIMED_STATEMENT@)
    } else if compiled(BARE_STATEMENT@) is None {
        Some(BARE_STATEMENT@)
    } else {
        None
    }
}

/// Everything that is set up once, before the first line: the compiled
/// patterns, the grammars and the theme. Nothing in it changes afterwards.
pub struct Renderer {
    reader: FreeTextReader,
    detector: StatementDetector,
    annotator: Annotator,
}

impl Renderer {
    /// The grammars and the theme of this renderer.
    pub closed spec fn annotator(&self) -> Annotator {
        self.annotator
    }

    /// Sets the renderer up. It fails where a pattern does not compile, with
    /// the first such pattern, and otherwise only where the loaded grammars
    /// hold none for statements; a missing theme is no failure.
    pub fn new() -> (r: Result<Renderer, SetupError>)
        ensures
            first_bad_pattern() is Some ==> r is Err,
            r matches Err(e) ==> e.bad_pattern() == first_bad_pattern() && (first_bad_pattern()
                is None ==> e == SetupError::MissingGrammar),
            r is Err ==> first_bad_pattern() is Some || a_built_set_lacks(STATEMENT_EXTENSION@),
            r matches Ok(renderer) ==> grammar_for(
                renderer.annotator().grammars(),
                STATEMENT_EXTENSION@,
            ) is Some && renderer.annotator().extension() == STATEMENT_EXTENSION@
                && renderer.annotator().theme() == bundled_theme(THEME_NAME@),
    {
        let reader = match FreeTextReader::new() {
            Ok(x) => x,
            Err(e) => {
                return Err(e);
            },
        };
        let detector = match StatementDetector::new() {
            Ok(x) => x,
            Err(e) => {
                return Err(e);
            },
        };
        let annotator = match Annotator::new() {
            Ok(x) => x,
            Err(e) => {
                return Err(e);
            },
        };
        Ok(Renderer { reader, detector, annotator })
    }

    /// Whether statements will be coloured. Where they will not, one
    /// warning is due, before the first record.
    pub fn has_theme(&self) -> (r: bool)
        ensures
            r == self.annotator().theme() is Some,
    {
        self.annotator.has_theme()
    }

    /// Reads a line: as a structured record where it decodes, as free text
    /// otherwise. `None` for a line that is neither.
    pub fn read(&self, line: &str) -> (r: Option<LogRecord>)
        ensures
            r is Some <==> record_of(line@) is Some,
            r matches Some(record) ==> Some(record@) == record_of(line@) && record.wf(),
    {
        match decode(line) {
            Ok(value) => Some(read_structured(&value)),
            Err(_) => self.reader.read(line),
        }
    }

    /// Lays a record out: its header and its body.
    pub fn plan(&self, record: &LogRecord) -> (r: Rendering)
        ensures
            r@ == rendering_of(record@, self.annotator()),
    {
        let fragment = self.detector.detect(record.message.as_str());
        let header = header_spans(record, &fragment);
        let body = match &fragment.statement {
            Some(statement) => {
                let canonical = format_statement(statement.as_str());
                Body::Statement(self.annotator.annotate(canonical.as_str()))
            },
            None => Body::Message(message_lines(record.message.as_str())),
        };
        Rendering { header, body }
    }

    /// Reads a line and lays its record out; `None` for a line that cannot
    /// be read, for which nothing is shown.
    pub fn describe(&self, line: &str) -> (r: Option<Rendering>)
        ensures
            r is Some <==> record_of(line@) is Some,
            r matches Some(rendering) ==> rendering@ == rendering_of(
                record_of(line@).unwrap(),
                self.annotator(),
            ),
    {
        match self.read(line) {
            Some(record) => Some(self.plan(&record)),
            None => None,
        }
    }
}

/// A structured line that has neither the key of the user nor that of the
/// database is shown with a header of timestamp, level and process id,
/// followed by nothing but the duration marker.
pub proof fn structured_header_without_optional_keys(line: Seq<char>)
    requires
        decoded(line) matches Some(value) && !string_members(value).contains_key(USER_KEY@)
            && !string_members(value).contains_key(DATABASE_KEY@),
    ensures
        record_of(line) matches Some(record) && header_of(record, fragment_in(record.message))
            == header_core(record) + duration_marker(fragment_in(record.message)) && plain_text(
            header_of(record, fragment_in(record.message)),
        ) == record.timestamp + " "@ + record.level + " pid="@ + record.process_id
            + duration_text(fragment_in(record.message)),
{
    let record = record_of(line).unwrap();
    header_without_optional_fields(record, fragment_in(record.message));
}

/// The spans of each line of a message body hold that line: nothing is
/// lost and nothing is added by setting the keywords off.
pub proof fn message_body_keeps_lines(message: Seq<char>, i: int)
    requires
        0 <= i < message_body(message).len(),
    ensures
        message_body(message).len() == display_lines(message).len(),
        plain_text(message_body(message)[i]) == display_lines(message)[i],
{
    emphasis_keeps_the_text(display_lines(message)[i]);
}

/// A record is shown as a statement exactly where its message holds one,
/// and the duration marker is shown only beside a statement.
pub proof fn duration_only_with_statement(record: RecordView, annotator: Annotator)
    ensures
        rendering_of(record, annotator).body is Statement <==> fragment_in(
            record.message,
        ).statement is Some,
        duration_marker(fragment_in(record.message)).len() > 0 ==> rendering_of(
            record,
            annotator,
        ).body is Statement,
        fragment_in(record.message).wf(),
{
}

} // verus!
