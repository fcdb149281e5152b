use pglogfmt::freetext::{record_from_groups, FreeTextReader};
use pglogfmt::record::LogRecord;
use pglogfmt::severity::Severity;

fn groups(items: &[Option<&str>]) -> Vec<Option<String>> {
    items.iter().map(|g| g.map(|s| s.to_string())).collect()
}

fn record(timestamp: &str, level: &str, severity: Severity, pid: &str, message: &str) -> LogRecord {
    LogRecord {
        timestamp: timestamp.to_string(),
        level: level.to_string(),
        severity,
        process_id: pid.to_string(),
        user: None,
        database: None,
        message: message.to_string(),
    }
}

#[test]
fn a_free_text_line_with_a_zone() {
    let reader = FreeTextReader::new().unwrap();
    assert_eq!(
        reader.read("2024-01-01 00:00:00.000000 UTC ERROR [123]: statement: SELECT * FROM t;"),
        Some(record(
            "2024-01-01 00:00:00.000000 UTC",
            "ERROR",
            Severity::Error,
            "123",
            "statement: SELECT * FROM t;"
        ))
    );
}

#[test]
fn a_free_text_line_without_a_zone() {
    let reader = FreeTextReader::new().unwrap();
    assert_eq!(
        reader.read("2024-05-06 07:08:09.123456 LOG [77] autovacuum starting"),
        Some(record("2024-05-06 07:08:09.123456", "LOG", Severity::Log, "77", "autovacuum starting"))
    );
    assert_eq!(
        reader.read("2024-05-06 07:08:09 WARNING [1]:"),
        Some(record("2024-05-06 07:08:09", "WARNING", Severity::Warning, "1", ""))
    );
}

#[test]
fn a_level_token_in_the_message_stands_in_for_an_unknown_level() {
    let reader = FreeTextReader::new().unwrap();
    assert_eq!(
        reader.read("2024-05-06 07:08:09.123456 BACKEND [9]: FATAL: the database system is down"),
        Some(record(
            "2024-05-06 07:08:09.123456",
            "FATAL",
            Severity::Fatal,
            "9",
            "FATAL: the database system is down"
        ))
    );
    assert_eq!(
        reader.read("2024-05-06 07:08:09.123456 BACKEND [9]: nothing to see"),
        Some(record(
            "2024-05-06 07:08:09.123456",
            "BACKEND",
            Severity::Unknown,
            "9",
            "nothing to see"
        ))
    );
}

#[test]
fn a_known_leading_level_is_not_overruled() {
    let reader = FreeTextReader::new().unwrap();
    assert_eq!(
        reader.read("2024-05-06 07:08:09.1 LOG [9]: ERROR: relation does not exist").unwrap().level,
        "LOG"
    );
}

#[test]
fn lines_without_the_leading_block_are_not_free_text() {
    let reader = FreeTextReader::new().unwrap();
    assert_eq!(reader.read(""), None);
    assert_eq!(reader.read("hello"), None);
    assert_eq!(reader.read("2024-01-01 ERROR [1]: x"), None);
    assert_eq!(reader.read(" 2024-01-01 00:00:00.0 ERROR [1]: x"), None);
    assert_eq!(reader.read("2024-01-01 00:00:00.0 ERROR 1: x"), None);
}

#[test]
fn groups_make_a_record() {
    let leading = groups(&[Some("whole"), Some("ts"), Some("INFO"), Some("5"), Some("msg")]);
    assert_eq!(
        record_from_groups(&leading, Some(groups(&[Some("ERROR:"), Some("ERROR")]))),
        record("ts", "INFO", Severity::Info, "5", "msg")
    );
    let odd = groups(&[Some("whole"), Some("ts"), Some("ODD"), Some("5"), Some("msg")]);
    assert_eq!(
        record_from_groups(&odd, Some(groups(&[Some("ERROR:"), Some("ERROR")]))),
        record("ts", "ERROR", Severity::Error, "5", "msg")
    );
    assert_eq!(record_from_groups(&odd, None), record("ts", "ODD", Severity::Unknown, "5", "msg"));
    assert_eq!(
        record_from_groups(&groups(&[Some("whole")]), None),
        record("", "", Severity::Unknown, "", "")
    );
}
