use pglogfmt::record::LogRecord;
use pglogfmt::renderer::Renderer;
use pglogfmt::severity::Severity;
use pglogfmt::structured::record_from_fields;

fn text(s: &str) -> Option<String> {
    Some(s.to_string())
}

#[test]
fn a_structured_line_gives_all_its_fields() {
    let renderer = Renderer::new().unwrap();
    let line = "{\"timestamp\":\"2024-01-01 00:00:00.000 UTC\",\"error_severity\":\"LOG\",\
                \"pid\":4242,\"user\":\"alice\",\"dbname\":\"shop\",\
                \"message\":\"checkpoint starting: time\",\"backend_type\":\"checkpointer\"}";
    assert_eq!(
        renderer.read(line),
        Some(LogRecord {
            timestamp: "2024-01-01 00:00:00.000 UTC".to_string(),
            level: "LOG".to_string(),
            severity: Severity::Log,
            process_id: "4242".to_string(),
            user: text("alice"),
            database: text("shop"),
            message: "checkpoint starting: time".to_string(),
        })
    );
}

#[test]
fn a_structured_line_without_keys_gives_empty_fields() {
    let renderer = Renderer::new().unwrap();
    let empty = LogRecord {
        timestamp: String::new(),
        level: String::new(),
        severity: Severity::Unknown,
        process_id: String::new(),
        user: None,
        database: None,
        message: String::new(),
    };
    assert_eq!(renderer.read("{}"), Some(empty.clone()));
    assert_eq!(renderer.read("42"), Some(empty.clone()));
    assert_eq!(renderer.read("[1, 2]"), Some(empty.clone()));
    assert_eq!(renderer.read("\"timestamp\""), Some(empty));
}

#[test]
fn the_process_id_is_shown_as_json_writes_it() {
    let renderer = Renderer::new().unwrap();
    assert_eq!(renderer.read("{\"pid\": 17}").unwrap().process_id, "17");
    assert_eq!(renderer.read("{\"pid\": \"17\"}").unwrap().process_id, "\"17\"");
    assert_eq!(renderer.read("{\"pid\": null}").unwrap().process_id, "null");
}

#[test]
fn a_member_that_is_no_string_counts_as_missing() {
    let renderer = Renderer::new().unwrap();
    let record = renderer
        .read("{\"timestamp\": 5, \"error_severity\": true, \"user\": 7, \"message\": [\"x\"]}")
        .unwrap();
    assert_eq!(record.timestamp, "");
    assert_eq!(record.level, "");
    assert_eq!(record.severity, Severity::Unknown);
    assert_eq!(record.user, None);
    assert_eq!(record.message, "");
}

#[test]
fn an_unknown_level_is_kept_as_written() {
    let renderer = Renderer::new().unwrap();
    let record = renderer.read("{\"error_severity\": \"DEBUG1\"}").unwrap();
    assert_eq!(record.level, "DEBUG1");
    assert_eq!(record.severity, Severity::Unknown);
}

#[test]
fn an_empty_user_or_database_is_none() {
    let renderer = Renderer::new().unwrap();
    let record = renderer.read("{\"user\": \"\", \"dbname\": \"\"}").unwrap();
    assert_eq!(record.user, None);
    assert_eq!(record.database, None);
}

#[test]
fn fields_make_a_record() {
    assert_eq!(
        record_from_fields(text("t"), text("PANIC"), text("1"), text("u"), text(""), None),
        LogRecord {
            timestamp: "t".to_string(),
            level: "PANIC".to_string(),
            severity: Severity::Panic,
            process_id: "1".to_string(),
            user: text("u"),
            database: None,
            message: String::new(),
        }
    );
}

#[test]
fn malformed_json_is_no_structured_record() {
    let renderer = Renderer::new().unwrap();
    assert_eq!(renderer.read("{\"timestamp\": \"2024-01-01\""), None);
    assert_eq!(renderer.read("{"), None);
    assert_eq!(renderer.read(""), None);
    assert_eq!(renderer.read("not a log line"), None);
}
