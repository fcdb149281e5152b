use pglogfmt::record::{non_empty, StatementFragment};
use pglogfmt::statement::{fragment_from_matches, group_string, StatementDetector};

fn groups(items: &[Option<&str>]) -> Vec<Option<String>> {
    items.iter().map(|g| g.map(|s| s.to_string())).collect()
}

fn fragment(duration: Option<&str>, statement: Option<&str>) -> StatementFragment {
    StatementFragment {
        duration: duration.map(|s| s.to_string()),
        statement: statement.map(|s| s.to_string()),
    }
}

#[test]
fn duration_and_statement_are_found_together() {
    let detector = StatementDetector::new().unwrap();
    assert_eq!(
        detector.detect("duration: 12.3 ms statement: SELECT 1;"),
        fragment(Some("12.3 ms"), Some("SELECT 1;"))
    );
    assert_eq!(
        detector.detect("duration: 0.045 ms  statement: select now()"),
        fragment(Some("0.045 ms"), Some("select now()"))
    );
}

#[test]
fn a_statement_alone_has_no_duration() {
    let detector = StatementDetector::new().unwrap();
    assert_eq!(
        detector.detect("statement: SELECT * FROM t;"),
        fragment(None, Some("SELECT * FROM t;"))
    );
    assert_eq!(
        detector.detect("execute statement: UPDATE t SET a = $1"),
        fragment(None, Some("UPDATE t SET a = $1"))
    );
}

#[test]
fn a_message_without_statement_has_no_fragment() {
    let detector = StatementDetector::new().unwrap();
    assert_eq!(detector.detect("autovacuum starting"), fragment(None, None));
    assert_eq!(detector.detect(""), fragment(None, None));
}

#[test]
fn a_duration_without_statement_is_dropped() {
    let detector = StatementDetector::new().unwrap();
    assert_eq!(detector.detect("duration: 12.3 ms"), fragment(None, None));
    assert_eq!(detector.detect("duration: 12.3 ms statement: "), fragment(None, None));
    assert_eq!(detector.detect("statement: "), fragment(None, None));
}

#[test]
fn a_statement_ends_with_its_line() {
    let detector = StatementDetector::new().unwrap();
    assert_eq!(
        detector.detect("statement: SELECT 1\nFROM t"),
        fragment(None, Some("SELECT 1"))
    );
}

#[test]
fn the_timed_match_goes_first() {
    let timed = Some(groups(&[Some("whole"), Some("1 ms"), Some("SELECT 1")]));
    let bare = Some(groups(&[Some("whole"), Some("SELECT 2")]));
    assert_eq!(
        fragment_from_matches(timed.clone(), bare.clone()),
        fragment(Some("1 ms"), Some("SELECT 1"))
    );
    assert_eq!(fragment_from_matches(None, bare), fragment(None, Some("SELECT 2")));
    assert_eq!(fragment_from_matches(timed, None), fragment(Some("1 ms"), Some("SELECT 1")));
    assert_eq!(fragment_from_matches(None, None), fragment(None, None));
}

#[test]
fn groups_that_are_missing_count_as_empty() {
    let timed = Some(groups(&[Some("whole"), Some("1 ms"), None]));
    let bare = Some(groups(&[Some("whole"), Some("SELECT 2")]));
    assert_eq!(fragment_from_matches(timed, bare), fragment(None, None));
    assert_eq!(fragment_from_matches(Some(groups(&[Some("w")])), None), fragment(None, None));
    assert_eq!(
        fragment_from_matches(Some(groups(&[Some("w"), None, Some("SELECT 3")])), None),
        fragment(None, Some("SELECT 3"))
    );
    assert_eq!(fragment_from_matches(None, Some(groups(&[]))), fragment(None, None));
}

#[test]
fn group_string_reads_one_group() {
    let found = groups(&[Some("ab"), None, Some("c")]);
    assert_eq!(group_string(&found, 0), "ab");
    assert_eq!(group_string(&found, 1), "");
    assert_eq!(group_string(&found, 2), "c");
    assert_eq!(group_string(&found, 3), "");
}

#[test]
fn non_empty_drops_the_empty_text() {
    assert_eq!(non_empty(String::new()), None);
    assert_eq!(non_empty("x".to_string()), Some("x".to_string()));
}
