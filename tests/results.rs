use csv_query::result::{collect_rows, QueryResult, ROW_WIDTH_MISMATCH, UNKNOWN_TYPE};
use csv_query::schema::schema_from_description;
use csv_query::value::{tag_for_declared, JsonValue, ScalarValue};

fn names(v: &[&str]) -> Vec<String> {
    v.iter().map(|s| s.to_string()).collect()
}

fn ok_result(r: Result<QueryResult, String>) -> QueryResult {
    match r {
        Ok(q) => q,
        Err(e) => panic!("unexpected error: {}", e),
    }
}

#[test]
fn example_file_rows() {
    let score: f64 = 9.5;
    let fetched = vec![
        Ok(vec![
            ScalarValue::BigInt(1),
            ScalarValue::Text("Alice".to_string()),
            ScalarValue::Double(score.to_bits()),
        ]),
        Ok(vec![ScalarValue::BigInt(2), ScalarValue::Text("Bob".to_string()), ScalarValue::Null]),
    ];
    let q = ok_result(collect_rows(names(&["id", "name", "score"]), fetched));
    assert_eq!(q.columns, names(&["id", "name", "score"]));
    assert_eq!(q.row_count, 2);
    assert_eq!(q.column_types, names(&["INTEGER", "VARCHAR", "DOUBLE"]));
    assert_eq!(
        q.rows[0],
        vec![
            JsonValue::Int(1),
            JsonValue::Text("Alice".to_string()),
            JsonValue::Double(score.to_bits())
        ]
    );
    assert_eq!(
        q.rows[1],
        vec![JsonValue::Int(2), JsonValue::Text("Bob".to_string()), JsonValue::Null]
    );
}

#[test]
fn shape_of_every_result() {
    let fetched = vec![
        Ok(vec![ScalarValue::Int(1), ScalarValue::Null]),
        Ok(vec![ScalarValue::Int(2), ScalarValue::Boolean(false)]),
        Ok(vec![ScalarValue::Int(3), ScalarValue::Boolean(true)]),
    ];
    let q = ok_result(collect_rows(names(&["a", "b"]), fetched));
    assert_eq!(q.row_count, q.rows.len());
    assert_eq!(q.row_count, 3);
    assert_eq!(q.column_types.len(), q.columns.len());
    for row in &q.rows {
        assert_eq!(row.len(), q.columns.len());
    }
}

#[test]
fn first_row_null_gives_null_tag() {
    let fetched = vec![
        Ok(vec![ScalarValue::Null, ScalarValue::Int(5)]),
        Ok(vec![ScalarValue::Text("later".to_string()), ScalarValue::Int(6)]),
    ];
    let q = ok_result(collect_rows(names(&["x", "y"]), fetched));
    assert_eq!(q.rows[0][0], JsonValue::Null);
    assert_eq!(q.column_types, names(&["NULL", "INTEGER"]));
}

#[test]
fn types_come_from_first_row_only() {
    let fetched = vec![
        Ok(vec![ScalarValue::Text("a".to_string())]),
        Ok(vec![ScalarValue::BigInt(9)]),
    ];
    let q = ok_result(collect_rows(names(&["v"]), fetched));
    assert_eq!(q.column_types, names(&["VARCHAR"]));
    assert_eq!(q.rows[1], vec![JsonValue::Int(9)]);
}

#[test]
fn empty_result_has_placeholder_types() {
    let q = ok_result(collect_rows(names(&["id", "name"]), Vec::new()));
    assert_eq!(q.row_count, 0);
    assert!(q.rows.is_empty());
    assert_eq!(q.column_types, vec![UNKNOWN_TYPE.to_string(), UNKNOWN_TYPE.to_string()]);
    assert_eq!(UNKNOWN_TYPE, "unknown");
}

#[test]
fn empty_result_without_columns() {
    let q = ok_result(collect_rows(Vec::new(), Vec::new()));
    assert_eq!(q.row_count, 0);
    assert!(q.columns.is_empty());
    assert!(q.column_types.is_empty());
}

#[test]
fn failure_discards_partial_rows() {
    let fetched = vec![
        Ok(vec![ScalarValue::Int(1)]),
        Ok(vec![ScalarValue::Int(2)]),
        Err("Conversion Error: could not convert".to_string()),
        Ok(vec![ScalarValue::Int(3)]),
    ];
    let r = collect_rows(names(&["n"]), fetched);
    assert_eq!(r, Err("Conversion Error: could not convert".to_string()));
}

#[test]
fn failure_on_first_fetch() {
    let r = collect_rows(names(&["n"]), vec![Err("boom".to_string())]);
    assert_eq!(r, Err("boom".to_string()));
}

#[test]
fn wrong_row_width_is_an_error() {
    let fetched = vec![
        Ok(vec![ScalarValue::Int(1), ScalarValue::Int(2)]),
        Ok(vec![ScalarValue::Int(3)]),
    ];
    let r = collect_rows(names(&["a", "b"]), fetched);
    assert_eq!(r, Err(ROW_WIDTH_MISMATCH.to_string()));
}

#[test]
fn schema_from_description_rows() {
    let described = vec![
        Ok(("id".to_string(), "BIGINT".to_string())),
        Ok(("name".to_string(), "VARCHAR".to_string())),
        Ok(("score".to_string(), "DOUBLE".to_string())),
    ];
    let s = schema_from_description(described).unwrap();
    assert_eq!(s.columns, names(&["id", "name", "score"]));
    assert_eq!(s.column_types, names(&["INTEGER", "VARCHAR", "DOUBLE"]));
    assert_eq!(s.row_count_estimate, 0);
}

#[test]
fn schema_keeps_duplicate_names() {
    let described = vec![
        Ok(("a".to_string(), "BIGINT".to_string())),
        Ok(("a".to_string(), "VARCHAR".to_string())),
    ];
    let s = schema_from_description(described).unwrap();
    assert_eq!(s.columns, names(&["a", "a"]));
    assert_eq!(s.column_types, names(&["INTEGER", "VARCHAR"]));
}

#[test]
fn schema_failure_is_returned() {
    let described = vec![
        Ok(("a".to_string(), "BIGINT".to_string())),
        Err("Invalid Input Error: malformed".to_string()),
    ];
    let r = schema_from_description(described);
    assert_eq!(r, Err("Invalid Input Error: malformed".to_string()));
}

#[test]
fn schema_types_match_result_tags() {
    let described = vec![
        Ok(("id".to_string(), "BIGINT".to_string())),
        Ok(("name".to_string(), "VARCHAR".to_string())),
        Ok(("score".to_string(), "DOUBLE".to_string())),
    ];
    let s = schema_from_description(described).unwrap();
    let score: f64 = 9.5;
    let fetched = vec![Ok(vec![
        ScalarValue::BigInt(1),
        ScalarValue::Text("Alice".to_string()),
        ScalarValue::Double(score.to_bits()),
    ])];
    let q = ok_result(collect_rows(names(&["id", "name", "score"]), fetched));
    assert_eq!(s.columns, q.columns);
    assert_eq!(s.column_types, q.column_types);
}

#[test]
fn declared_types_map_to_tags() {
    let cases = [
        ("TINYINT", "INTEGER"),
        ("SMALLINT", "INTEGER"),
        ("INTEGER", "INTEGER"),
        ("BIGINT", "INTEGER"),
        ("HUGEINT", "HUGEINT"),
        ("UTINYINT", "UINTEGER"),
        ("USMALLINT", "UINTEGER"),
        ("UINTEGER", "UINTEGER"),
        ("UBIGINT", "UINTEGER"),
        ("FLOAT", "DOUBLE"),
        ("DOUBLE", "DOUBLE"),
        ("VARCHAR", "VARCHAR"),
        ("BLOB", "BLOB"),
        ("BOOLEAN", "BOOLEAN"),
        ("DATE", "UNKNOWN"),
        ("TIMESTAMP", "UNKNOWN"),
        ("SQLNULL", "UNKNOWN"),
        ("bigint", "UNKNOWN"),
    ];
    for (declared, tag) in cases {
        assert_eq!(tag_for_declared(&declared.to_string()), tag);
    }
}
