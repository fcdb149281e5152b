use pglogfmt::layout::{format_statement, settle};

#[test]
fn a_statement_is_laid_out_clause_by_clause() {
    assert_eq!(format_statement("SELECT * FROM t;"), "SELECT\n  *\nFROM\n  t;");
    assert_eq!(format_statement("SELECT 1;"), "SELECT\n  1;");
}

#[test]
fn formatting_twice_is_formatting_once() {
    for statement in [
        "SELECT * FROM t;",
        "SELECT 1;",
        "select a, b from t where a = 1 and b = 'x' order by a",
        "UPDATE t SET a = $1 WHERE id = $2",
        "INSERT INTO t (a, b) VALUES (1, 2), (3, 4)",
        "select count(*) from orders o join customers c on c.id = o.customer_id group by c.id",
        "",
        "not sql at all (",
        "SELECT\n  1;",
    ] {
        let once = format_statement(statement);
        assert_eq!(format_statement(&once), once, "{:?}", statement);
    }
}

#[test]
fn parameters_pass_through() {
    let formatted = format_statement("SELECT * FROM t WHERE a = $1 AND b = ?");
    assert!(formatted.contains("$1"));
    assert!(formatted.contains("?"));
}

#[test]
fn settle_keeps_a_layout_that_is_a_fixed_point() {
    assert_eq!(settle("select 1", "SELECT\n  1".to_string(), "SELECT\n  1"), "SELECT\n  1");
    assert_eq!(settle("select 1", "SELECT\n  1".to_string(), "SELECT 1"), "select 1");
    assert_eq!(settle("", String::new(), ""), "");
}
