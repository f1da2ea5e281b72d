use huruli_fdw::{
    build_row, extract_row_ids, get_row_request, list_rows_request, requested_names, Cell, Column,
    ConnParams, FdwError, GetRowResponse, JsonValue, TypeOid,
};

fn text(s: &str) -> JsonValue {
    JsonValue::String(s.to_string())
}

fn strings(v: &[&str]) -> Vec<String> {
    v.iter().map(|s| s.to_string()).collect()
}

fn params() -> ConnParams {
    ConnParams {
        base_url: "https://api.example".to_string(),
        api_key: "k1".to_string(),
        cid: "c9".to_string(),
        object: "people".to_string(),
    }
}

#[test]
fn listing_stringifies_non_string_ids() {
    let rows = vec![
        vec![text("a")],
        vec![text("b")],
        vec![JsonValue::Number { integral: Some(7), text: "7".to_string() }],
    ];
    assert_eq!(extract_row_ids(&rows), strings(&["a", "b", "7"]));
}

#[test]
fn listing_skips_rows_without_elements() {
    let rows = vec![vec![], vec![text("x")]];
    assert_eq!(extract_row_ids(&rows), strings(&["x"]));
}

#[test]
fn listing_keeps_order_and_duplicates() {
    let rows = vec![
        vec![text("b"), text("ignored")],
        vec![JsonValue::Null],
        vec![text("b")],
        vec![JsonValue::Bool(true)],
    ];
    assert_eq!(extract_row_ids(&rows), strings(&["b", "null", "b", "true"]));
}

#[test]
fn listing_request_url_and_headers() {
    let req = list_rows_request(&params());
    assert_eq!(req.url, "https://api.example/fdw/connections/c9/tables/people/rows");
    assert_eq!(
        req.headers,
        vec![
            ("user-agent".to_string(), "Huruli FDW".to_string()),
            ("authorization".to_string(), "Bearer k1".to_string()),
        ]
    );
}

#[test]
fn row_request_url_and_body() {
    let cols = strings(&["id", "name"]);
    let (req, body) = get_row_request(&params(), &"r42".to_string(), &cols);
    assert_eq!(req.url, "https://api.example/fdw/connections/c9/tables/people/rows/r42");
    assert_eq!(req.headers[1].1, "Bearer k1");
    assert_eq!(body.cid, "c9");
    assert_eq!(body.table_name, "people");
    assert_eq!(body.row_id, "r42");
    assert_eq!(body.columns, cols);
}

#[test]
fn requested_column_names_in_order() {
    let cols = vec![
        Column { name: "b".to_string(), type_oid: TypeOid::I64 },
        Column { name: "a".to_string(), type_oid: TypeOid::Bool },
    ];
    assert_eq!(requested_names(&cols), strings(&["b", "a"]));
}

#[test]
fn missing_column_gives_absent_cell() {
    let cols = vec![
        Column { name: "missing".to_string(), type_oid: TypeOid::String },
        Column { name: "n".to_string(), type_oid: TypeOid::I64 },
    ];
    let resp = GetRowResponse {
        columns: strings(&["n", "other"]),
        values: vec![text("5"), text("x")],
    };
    assert_eq!(build_row(&cols, &resp), Ok(vec![None, Some(Cell::I64(5))]));
}

#[test]
fn first_matching_column_wins() {
    let cols = vec![Column { name: "n".to_string(), type_oid: TypeOid::String }];
    let resp = GetRowResponse {
        columns: strings(&["n", "n"]),
        values: vec![text("first"), text("second")],
    };
    assert_eq!(build_row(&cols, &resp), Ok(vec![Some(Cell::String("first".to_string()))]));
}

#[test]
fn unequal_names_and_values_is_parse_error() {
    let cols = vec![Column { name: "n".to_string(), type_oid: TypeOid::I64 }];
    let resp = GetRowResponse { columns: strings(&["n", "m"]), values: vec![text("1")] };
    assert!(matches!(build_row(&cols, &resp), Err(FdwError::ResponseParse(_))));
}
