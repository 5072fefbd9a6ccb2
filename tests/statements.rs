use csv_query::sql::{create_view_sql, describe_sql};

#[test]
fn describe_statement_for_plain_path() {
    assert_eq!(
        describe_sql("data.csv"),
        "DESCRIBE (SELECT * FROM read_csv_auto('data.csv'));"
    );
}

#[test]
fn describe_statement_escapes_quotes_in_path() {
    assert_eq!(
        describe_sql("it's.csv"),
        "DESCRIBE (SELECT * FROM read_csv_auto('it''s.csv'));"
    );
}

#[test]
fn view_statement_for_plain_names() {
    assert_eq!(
        create_view_sql("t", "data.csv"),
        "CREATE VIEW \"t\" AS SELECT * FROM read_csv_auto('data.csv');"
    );
}

#[test]
fn view_statement_quotes_table_name() {
    assert_eq!(
        create_view_sql("a\"b; DROP", "x'y.csv"),
        "CREATE VIEW \"a\"\"b; DROP\" AS SELECT * FROM read_csv_auto('x''y.csv');"
    );
}

#[test]
fn both_statements_read_the_same_source() {
    let path = "/tmp/ümlaut 'q'.csv";
    let source = "SELECT * FROM read_csv_auto('/tmp/ümlaut ''q''.csv')";
    assert!(describe_sql(path).contains(source));
    assert!(create_view_sql("t", path).contains(source));
}
