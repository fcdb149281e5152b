use colored::Color;
use pglogfmt::error::SetupError;
use pglogfmt::layout::format_statement;
use pglogfmt::lines::indent_block;
use pglogfmt::record::{LogRecord, StatementFragment};
use pglogfmt::render::{header_spans, show, Body};
use pglogfmt::renderer::{invalid_input_spans, message_lines, Renderer, INVALID_MARKER};
use pglogfmt::severity::Severity;
use pglogfmt::style::{StyleSpan, TextStyle};

fn colours_on() {
    colored::control::set_override(true);
}

fn plain(text: &str) -> StyleSpan {
    StyleSpan::new(text, TextStyle::plain())
}

fn span(text: &str, style: TextStyle) -> StyleSpan {
    StyleSpan::new(text, style)
}

fn text_of(spans: &[StyleSpan]) -> String {
    spans.iter().map(|s| s.text.as_str()).collect()
}

fn without_sequences(text: &str) -> String {
    let mut out = String::new();
    let mut inside = false;
    for c in text.chars() {
        if inside {
            if c == 'm' {
                inside = false;
            }
        } else if c == '\u{1b}' {
            inside = true;
        } else {
            out.push(c);
        }
    }
    out
}

fn record(user: Option<&str>, database: Option<&str>) -> LogRecord {
    LogRecord {
        timestamp: "2024-01-01 00:00:00 UTC".to_string(),
        level: "WARNING".to_string(),
        severity: Severity::Warning,
        process_id: "55".to_string(),
        user: user.map(|s| s.to_string()),
        database: database.map(|s| s.to_string()),
        message: String::new(),
    }
}

fn no_fragment() -> StatementFragment {
    StatementFragment { duration: None, statement: None }
}

#[test]
fn a_header_without_optional_fields_has_three_fields() {
    let header = header_spans(&record(None, None), &no_fragment());
    assert_eq!(
        header,
        vec![
            span("2024-01-01 00:00:00 UTC", TextStyle::dimmed()),
            plain(" "),
            span("WARNING", TextStyle::bold(Color::Yellow)),
            plain(" pid="),
            span("55", TextStyle::colored(Color::Cyan)),
        ]
    );
    assert_eq!(text_of(&header), "2024-01-01 00:00:00 UTC WARNING pid=55");
}

#[test]
fn a_header_shows_the_optional_fields_that_are_there() {
    assert_eq!(
        text_of(&header_spans(&record(Some("alice"), Some("shop")), &no_fragment())),
        "2024-01-01 00:00:00 UTC WARNING pid=55 user=alice db=shop"
    );
    assert_eq!(
        text_of(&header_spans(&record(None, Some("shop")), &no_fragment())),
        "2024-01-01 00:00:00 UTC WARNING pid=55 db=shop"
    );
    let header = header_spans(&record(Some("alice"), None), &no_fragment());
    assert_eq!(text_of(&header), "2024-01-01 00:00:00 UTC WARNING pid=55 user=alice");
    assert_eq!(header[5], plain(" user="));
    assert_eq!(header[6], span("alice", TextStyle::colored(Color::Blue)));
    let header = header_spans(&record(None, Some("shop")), &no_fragment());
    assert_eq!(header[6], span("shop", TextStyle::colored(Color::Magenta)));
}

#[test]
fn a_header_ends_with_the_duration_marker() {
    let fragment = StatementFragment {
        duration: Some("12.3 ms".to_string()),
        statement: Some("SELECT 1;".to_string()),
    };
    let header = header_spans(&record(None, None), &fragment);
    assert_eq!(text_of(&header), "2024-01-01 00:00:00 UTC WARNING pid=55 duration: 12.3 ms");
    assert_eq!(header[5], plain(" "));
    assert_eq!(header[6], span("duration: 12.3 ms", TextStyle::bold(Color::Yellow)));
    assert_eq!(header.len(), 7);
}

#[test]
fn structured_input_without_optional_keys_shows_no_user_and_no_database() {
    colours_on();
    let renderer = Renderer::new().unwrap();
    let line = "{\"timestamp\":\"2024-01-01 00:00:00.000 UTC\",\"error_severity\":\"LOG\",\
                \"pid\":4242,\"message\":\"connection received\"}";
    let rendering = renderer.describe(line).unwrap();
    assert_eq!(text_of(&rendering.header), "2024-01-01 00:00:00.000 UTC LOG pid=4242");
    let lines = show(&rendering);
    assert!(!lines[0].contains("user="));
    assert!(!lines[0].contains("db="));
    assert_eq!(without_sequences(&lines[0]), "2024-01-01 00:00:00.000 UTC LOG pid=4242");
    assert_eq!(lines[1..], ["    connection received".to_string()]);
}

#[test]
fn a_timed_statement_shows_its_duration_and_a_formatted_block() {
    colours_on();
    let renderer = Renderer::new().unwrap();
    let line = "{\"timestamp\":\"t\",\"error_severity\":\"LOG\",\"pid\":1,\
                \"message\":\"duration: 12.3 ms statement: SELECT 1;\"}";
    let rendering = renderer.describe(line).unwrap();
    assert_eq!(
        rendering.header.last(),
        Some(&span("duration: 12.3 ms", TextStyle::bold(Color::Yellow)))
    );
    let lines = show(&rendering);
    assert_eq!(lines.len(), 2);
    assert!(lines[0].contains("\u{1b}[1;33mduration: 12.3 ms\u{1b}[0m"));
    assert!(lines[1].contains("SELECT"));
    assert!(lines[1].contains("1"));
    assert!(lines[1].contains("\u{1b}[38;2;"));
    assert_eq!(without_sequences(&lines[1]), "    SELECT\n      1;");
}

#[test]
fn a_statement_body_is_the_statement_formatted_and_annotated() {
    let renderer = Renderer::new().unwrap();
    let rendering = renderer
        .describe("{\"message\": \"statement: select a from t where b = 2\"}")
        .unwrap();
    match &rendering.body {
        Body::Statement(text) => {
            assert_eq!(
                without_sequences(text),
                format_statement("select a from t where b = 2")
            );
            assert_eq!(without_sequences(text), "select\n  a\nfrom\n  t\nwhere\n  b = 2");
        }
        Body::Message(_) => panic!("a statement was expected"),
    }
}

#[test]
fn a_plain_message_has_each_keyword_styled_once() {
    colours_on();
    let renderer = Renderer::new().unwrap();
    let rendering = renderer
        .describe("{\"timestamp\":\"t\",\"error_severity\":\"LOG\",\"pid\":1,\"message\":\"autovacuum starting\"}")
        .unwrap();
    assert_eq!(
        rendering.body,
        Body::Message(vec![vec![
            span("autovacuum", TextStyle::bold(Color::Magenta)),
            plain(" "),
            span("starting", TextStyle::bold(Color::Yellow)),
        ]])
    );
    let lines = show(&rendering);
    assert_eq!(
        lines[1],
        "    \u{1b}[1;35mautovacuum\u{1b}[0m \u{1b}[1;33mstarting\u{1b}[0m"
    );
    assert_eq!(lines[1].matches("autovacuum").count(), 1);
    assert_eq!(lines[1].matches("starting").count(), 1);
    assert_eq!(lines[1].matches('\u{1b}').count(), 4);
}

#[test]
fn a_message_of_several_lines_is_cut_line_by_line() {
    assert_eq!(
        message_lines("checkpoint starting\r\n\nlast line\n"),
        vec![
            vec![
                span("checkpoint", TextStyle::bold(Color::Cyan)),
                plain(" "),
                span("starting", TextStyle::bold(Color::Yellow)),
            ],
            vec![],
            vec![plain("last line")],
        ]
    );
    assert_eq!(message_lines(""), Vec::<Vec<StyleSpan>>::new());
}

#[test]
fn malformed_structured_input_is_not_rendered() {
    let renderer = Renderer::new().unwrap();
    assert_eq!(renderer.describe("{\"timestamp\": \"2024-01-01 00:00:00\", \"pid\": "), None);
    assert_eq!(renderer.read("{\"timestamp\": \"2024-01-01 00:00:00\", \"pid\": "), None);
}

#[test]
fn the_diagnostic_is_the_marker_and_the_line() {
    colours_on();
    let spans = invalid_input_spans("{\"pid\": ");
    assert_eq!(
        spans,
        vec![span(INVALID_MARKER, TextStyle::bold(Color::Red)), plain(" "), plain("{\"pid\": ")]
    );
    assert_eq!(INVALID_MARKER, "[INVALID INPUT]");
    assert_eq!(
        pglogfmt::render::paint_line(&spans),
        "\u{1b}[1;31m[INVALID INPUT]\u{1b}[0m {\"pid\": "
    );
}

#[test]
fn a_free_text_line_is_rendered_end_to_end() {
    colours_on();
    let renderer = Renderer::new().unwrap();
    let line = "2024-01-01 00:00:00.000000 UTC ERROR [123]: statement: SELECT * FROM t;";
    let rendering = renderer.describe(line).unwrap();
    assert_eq!(
        rendering.header,
        vec![
            span("2024-01-01 00:00:00.000000 UTC", TextStyle::dimmed()),
            plain(" "),
            span("ERROR", TextStyle::bold(Color::Red)),
            plain(" pid="),
            span("123", TextStyle::colored(Color::Cyan)),
        ]
    );
    let lines = show(&rendering);
    assert_eq!(
        lines[0],
        "\u{1b}[2m2024-01-01 00:00:00.000000 UTC\u{1b}[0m \u{1b}[1;31mERROR\u{1b}[0m pid=\u{1b}[36m123\u{1b}[0m"
    );
    assert_eq!(lines.len(), 2);
    assert_eq!(without_sequences(&lines[1]), indent_block("SELECT\n  *\nFROM\n  t;"));
    assert_eq!(without_sequences(&lines[1]), "    SELECT\n      *\n    FROM\n      t;");
}

#[test]
fn structured_decoding_goes_before_free_text() {
    let renderer = Renderer::new().unwrap();
    let record = renderer.read("\"2024-01-01 00:00:00.0 ERROR [1]: x\"").unwrap();
    assert_eq!(record.process_id, "");
    assert_eq!(record.severity, Severity::Unknown);
}

#[test]
fn one_bad_line_does_not_stop_the_next() {
    let renderer = Renderer::new().unwrap();
    assert_eq!(renderer.describe("{"), None);
    assert!(renderer.describe("{}").is_some());
    assert_eq!(renderer.describe("garbage"), None);
    assert!(renderer.describe("2024-01-01 00:00:00.1 LOG [1]: ok").is_some());
}

#[test]
fn the_renderer_is_set_up_with_its_theme() {
    assert!(Renderer::new().unwrap().has_theme());
}

#[test]
fn setup_errors_are_described() {
    assert_eq!(
        SetupError::BadPattern("a(".to_string()).describe(),
        "pattern does not compile: a("
    );
    assert_eq!(SetupError::MissingGrammar.describe(), "no SQL grammar among the loaded grammars");
}

#[test]
fn a_read_fault_is_reported_with_its_marker() {
    colours_on();
    let spans = pglogfmt::renderer::read_fault_spans("stream did not contain valid UTF-8");
    assert_eq!(
        spans,
        vec![
            span(pglogfmt::renderer::READ_FAULT_MARKER, TextStyle::bold(Color::Red)),
            plain(" "),
            plain("stream did not contain valid UTF-8"),
        ]
    );
    assert_eq!(
        pglogfmt::render::paint_line(&spans),
        "\u{1b}[1;31m[READ ERROR]\u{1b}[0m stream did not contain valid UTF-8"
    );
}

#[test]
fn the_spans_of_a_message_body_hold_its_lines() {
    for message in ["checkpoint complete: wrote 3 buffers\nautovacuum starting\r\n", "", "x\n\ny"] {
        let expected: Vec<String> = message.lines().map(|l| l.to_string()).collect();
        let shown: Vec<String> = message_lines(message).iter().map(|l| text_of(l)).collect();
        assert_eq!(shown, expected, "{:?}", message);
    }
}

#[test]
fn no_keyword_begins_inside_another() {
    assert_eq!(
        message_lines("checkpointautovacuumstartingcomplete"),
        vec![vec![
            span("checkpoint", TextStyle::bold(Color::Cyan)),
            span("autovacuum", TextStyle::bold(Color::Magenta)),
            span("starting", TextStyle::bold(Color::Yellow)),
            span("complete", TextStyle::bold(Color::Green)),
        ]]
    );
}
