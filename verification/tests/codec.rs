use stripe_adapter::codec::{body_to_rows, coerce_field, decode_row, resp_to_rows, DecodeError};
use stripe_adapter::encode::row_to_body;
use stripe_adapter::encode::EncodeError;
use stripe_adapter::json::{Field, Member};
use stripe_adapter::row::{Cell, Column, Row};
use stripe_adapter::schema::{ColumnType, ResourceKind};

fn names(cols: &[&str]) -> Vec<String> {
    cols.iter().map(|c| c.to_string()).collect()
}

fn column(name: &str, cell: Option<Cell>) -> Column {
    Column { name: name.to_string(), cell }
}

fn to_json(body: &[Member]) -> String {
    let mut map = serde_json::Map::new();
    for member in body {
        let value = match &member.value {
            Field::Null => serde_json::Value::Null,
            Field::Bool(b) => serde_json::Value::Bool(*b),
            Field::Number(_, text) | Field::Nested(text) => serde_json::from_str(text).unwrap(),
            Field::Str(s) => serde_json::Value::String(s.clone()),
        };
        map.insert(member.key.clone(), value);
    }
    serde_json::Value::Object(map).to_string()
}

#[test]
fn list_page_gives_one_row_per_record() {
    let body = r#"{"object":"list","has_more":false,"url":"/v1/customers","data":[
        {"id":"cus_1","object":"customer","email":"a@example.com","name":"Ann","created":1660000000,"balance":5},
        {"id":"cus_2","object":"customer","email":null,"name":"Bob","created":1660000001}]}"#;
    let page = resp_to_rows(ResourceKind::Customers, body, &names(&["id", "email", "created"])).unwrap();
    assert_eq!(page.rows.len(), 2);
    assert_eq!(page.has_more, Some(false));
    assert_eq!(page.cursor, Some("cus_2".to_string()));
    assert_eq!(
        page.rows[0].columns,
        vec![
            column("id", Some(Cell::String("cus_1".to_string()))),
            column("email", Some(Cell::String("a@example.com".to_string()))),
            column("created", Some(Cell::Timestamp(1660000000))),
        ]
    );
    assert_eq!(
        page.rows[1].columns,
        vec![
            column("id", Some(Cell::String("cus_2".to_string()))),
            column("email", None),
            column("created", Some(Cell::Timestamp(1660000001))),
        ]
    );
}

#[test]
fn every_kind_decodes_its_records() {
    let kinds = [
        ResourceKind::BalanceTransactions,
        ResourceKind::Charges,
        ResourceKind::Customers,
        ResourceKind::Invoices,
        ResourceKind::PaymentIntents,
        ResourceKind::Products,
        ResourceKind::Subscriptions,
    ];
    let body = r#"{"object":"list","has_more":false,"data":[{"id":"a"},{"id":"b"},{"id":"c"}]}"#;
    for kind in kinds {
        let page = resp_to_rows(kind, body, &names(&["id", "unknown"])).unwrap();
        assert_eq!(page.rows.len(), 3);
        for (row, id) in page.rows.iter().zip(["a", "b", "c"]) {
            assert_eq!(row.columns, vec![column("id", Some(Cell::String(id.to_string())))]);
        }
    }
}

#[test]
fn balance_list_is_read_from_available() {
    let body = r#"{"object":"list","available":[{"amount":120,"currency":"usd"}],"data":[]}"#;
    let page = resp_to_rows(ResourceKind::Balance, body, &names(&["currency", "amount"])).unwrap();
    assert_eq!(page.rows.len(), 1);
    assert_eq!(
        page.rows[0].columns,
        vec![
            column("currency", Some(Cell::String("usd".to_string()))),
            column("amount", Some(Cell::I64(120))),
        ]
    );
    assert_eq!(page.cursor, None);
    assert_eq!(page.has_more, None);
}

#[test]
fn bare_object_is_one_row() {
    let body = r#"{"id":"prod_9","object":"product","name":"Tea","active":true,"created":10,"updated":20}"#;
    let page = resp_to_rows(ResourceKind::Products, body, &names(&["id", "active", "updated", "attrs"])).unwrap();
    assert_eq!(page.rows.len(), 1);
    assert_eq!(
        page.rows[0].columns,
        vec![
            column("id", Some(Cell::String("prod_9".to_string()))),
            column("active", Some(Cell::Bool(true))),
            column("updated", Some(Cell::Timestamp(20))),
            column("attrs", Some(Cell::Json(body.to_string()))),
        ]
    );
    assert_eq!(page.cursor, Some("prod_9".to_string()));
    assert_eq!(page.has_more, None);
}

#[test]
fn empty_list_has_no_rows_and_no_cursor() {
    let body = r#"{"object":"list","has_more":false,"data":[]}"#;
    let page = resp_to_rows(ResourceKind::Charges, body, &names(&["id"])).unwrap();
    assert!(page.rows.is_empty());
    assert_eq!(page.cursor, None);
    assert_eq!(page.has_more, Some(false));
}

#[test]
fn attrs_of_a_list_record_is_its_compact_text() {
    let body = r#"{"object":"list","has_more":true,"data":[ {"id":"ch_1", "extra": {"k": [1, 2]}} ]}"#;
    let page = resp_to_rows(ResourceKind::Charges, body, &names(&["attrs"])).unwrap();
    assert_eq!(page.rows.len(), 1);
    assert_eq!(
        page.rows[0].columns,
        vec![column("attrs", Some(Cell::Json(r#"{"extra":{"k":[1,2]},"id":"ch_1"}"#.to_string())))]
    );
    assert_eq!(page.has_more, Some(true));
}

#[test]
fn malformed_bodies_are_refused() {
    let cols = names(&["id"]);
    assert_eq!(resp_to_rows(ResourceKind::Charges, "not json", &cols), Err(DecodeError::Malformed));
    assert_eq!(resp_to_rows(ResourceKind::Charges, "[1,2]", &cols), Err(DecodeError::Malformed));
    assert_eq!(
        resp_to_rows(ResourceKind::Charges, r#"{"object":"list","has_more":false}"#, &cols),
        Err(DecodeError::Malformed)
    );
    assert_eq!(
        resp_to_rows(ResourceKind::Charges, r#"{"object":"list","data":{"id":"x"}}"#, &cols),
        Err(DecodeError::Malformed)
    );
}

#[test]
fn mismatched_values_leave_the_cell_empty() {
    let body = r#"{"object":"list","has_more":false,"data":[{"id":7,"amount":"12","currency":true,"created":"now","fee":1.5}]}"#;
    let page = resp_to_rows(
        ResourceKind::BalanceTransactions,
        body,
        &names(&["id", "amount", "currency", "created", "fee", "net"]),
    )
    .unwrap();
    assert_eq!(
        page.rows[0].columns,
        vec![
            column("id", None),
            column("amount", None),
            column("currency", None),
            column("created", None),
            column("fee", None),
            column("net", None),
        ]
    );
    assert_eq!(page.cursor, None);
}

#[test]
fn records_that_are_no_objects_give_empty_cells() {
    let body = r#"{"object":"list","has_more":false,"data":[5]}"#;
    let page = resp_to_rows(ResourceKind::Charges, body, &names(&["id", "attrs"])).unwrap();
    assert_eq!(
        page.rows[0].columns,
        vec![column("id", None), column("attrs", Some(Cell::Json("5".to_string())))]
    );
}

#[test]
fn timestamps_outside_the_calendar_leave_the_cell_empty() {
    let number = |v: i64| Field::Number(Some(v), v.to_string());
    assert_eq!(coerce_field(&number(253402300799), ColumnType::Timestamp), Some(Cell::Timestamp(253402300799)));
    assert_eq!(coerce_field(&number(253402300800), ColumnType::Timestamp), None);
    assert_eq!(coerce_field(&number(-377705116800), ColumnType::Timestamp), Some(Cell::Timestamp(-377705116800)));
    assert_eq!(coerce_field(&number(-377705116801), ColumnType::Timestamp), None);
    assert_eq!(coerce_field(&number(i64::MAX), ColumnType::Timestamp), None);
    assert_eq!(coerce_field(&number(i64::MAX), ColumnType::I64), Some(Cell::I64(i64::MAX)));
    assert_eq!(coerce_field(&Field::Number(None, "1.5".to_string()), ColumnType::I64), None);
}

#[test]
fn numbers_beyond_i64_are_no_integers() {
    let body = r#"{"object":"list","has_more":false,"data":[{"amount":18446744073709551615,"fee":-3}]}"#;
    let page = resp_to_rows(ResourceKind::BalanceTransactions, body, &names(&["amount", "fee"])).unwrap();
    assert_eq!(page.rows[0].columns, vec![column("amount", None), column("fee", Some(Cell::I64(-3)))]);
}

#[test]
fn decode_row_keeps_the_order_of_the_request() {
    let record = vec![
        Member { key: "name".to_string(), value: Field::Str("Ann".to_string()) },
        Member { key: "id".to_string(), value: Field::Str("cus_1".to_string()) },
    ];
    let schema = ResourceKind::Customers.schema();
    let row = decode_row(&record, "{}", &schema, &names(&["id", "zzz", "name", "id"]));
    assert_eq!(
        row.columns,
        vec![
            column("id", Some(Cell::String("cus_1".to_string()))),
            column("name", Some(Cell::String("Ann".to_string()))),
            column("id", Some(Cell::String("cus_1".to_string()))),
        ]
    );
}

#[test]
fn body_to_rows_takes_any_key_and_schema() {
    let schema = ResourceKind::Balance.schema();
    let body = r#"{"object":"list","pending":[{"amount":1},{"amount":2}],"has_more":true}"#;
    let page = body_to_rows(body, "pending", &schema, &names(&["amount"])).unwrap();
    assert_eq!(page.rows.len(), 2);
    assert_eq!(page.rows[1].columns, vec![column("amount", Some(Cell::I64(2)))]);
    assert_eq!(page.has_more, Some(true));
}

#[test]
fn scalars_become_members_of_the_body() {
    let mut row = Row::new();
    row.push("name", Some(Cell::String("Ann".to_string())));
    row.push("active", Some(Cell::Bool(false)));
    row.push("amount", Some(Cell::I64(-42)));
    row.push("email", None);
    let body = row_to_body(&row).unwrap();
    assert_eq!(
        body,
        vec![
            Member { key: "name".to_string(), value: Field::Str("Ann".to_string()) },
            Member { key: "active".to_string(), value: Field::Bool(false) },
            Member { key: "amount".to_string(), value: Field::Number(Some(-42), "-42".to_string()) },
        ]
    );
}

#[test]
fn a_later_column_of_the_same_name_wins() {
    let mut row = Row::new();
    row.push("name", Some(Cell::String("Ann".to_string())));
    row.push("amount", Some(Cell::I64(1)));
    row.push("name", Some(Cell::String("Bob".to_string())));
    let body = row_to_body(&row).unwrap();
    assert_eq!(
        body,
        vec![
            Member { key: "name".to_string(), value: Field::Str("Bob".to_string()) },
            Member { key: "amount".to_string(), value: Field::Number(Some(1), "1".to_string()) },
        ]
    );
}

#[test]
fn a_timestamp_cannot_be_sent() {
    let mut row = Row::new();
    row.push("name", Some(Cell::String("Ann".to_string())));
    row.push("created", Some(Cell::Timestamp(5)));
    row.push("email", Some(Cell::String("a@example.com".to_string())));
    assert_eq!(row_to_body(&row), Err(EncodeError::UnsupportedType));
}

#[test]
fn a_cell_of_another_type_cannot_be_sent() {
    let mut row = Row::new();
    row.push("balance", Some(Cell::Other));
    assert_eq!(row_to_body(&row), Err(EncodeError::UnsupportedType));
    assert_eq!(row_to_body(&Row::new()), Ok(vec![]));
}

#[test]
fn a_document_outside_attrs_is_left_out() {
    let mut row = Row::new();
    row.push("metadata", Some(Cell::Json(r#"{"a":1}"#.to_string())));
    row.push("attrs", Some(Cell::Json("[1,2]".to_string())));
    assert_eq!(row_to_body(&row), Ok(vec![]));
}

#[test]
fn scalars_survive_the_round_trip() {
    let mut row = Row::new();
    row.push("id", Some(Cell::String("prod_1".to_string())));
    row.push("name", Some(Cell::String("Tea \"green\"".to_string())));
    row.push("active", Some(Cell::Bool(true)));
    let body = row_to_body(&row).unwrap();
    let page = resp_to_rows(ResourceKind::Products, &to_json(&body), &names(&["id", "name", "active"])).unwrap();
    assert_eq!(page.rows.len(), 1);
    assert_eq!(page.rows[0], row);

    let mut amounts = Row::new();
    amounts.push("amount", Some(Cell::I64(i64::MIN)));
    amounts.push("currency", Some(Cell::String("eur".to_string())));
    let body = row_to_body(&amounts).unwrap();
    let page = resp_to_rows(ResourceKind::Charges, &to_json(&body), &names(&["amount", "currency"])).unwrap();
    assert_eq!(page.rows[0], amounts);
}

#[test]
fn extra_attributes_survive_the_round_trip() {
    let record = r#"{"id":"cus_1","nickname":"annie","tags":["a","b"],"score":2.5,"vip":true,"age":30,"note":null}"#;
    let page = resp_to_rows(ResourceKind::Customers, record, &names(&["attrs"])).unwrap();
    assert_eq!(page.rows.len(), 1);
    let body = row_to_body(&page.rows[0]).unwrap();
    assert_eq!(
        body,
        vec![
            Member { key: "age".to_string(), value: Field::Number(Some(30), "30".to_string()) },
            Member { key: "id".to_string(), value: Field::Str("cus_1".to_string()) },
            Member { key: "nickname".to_string(), value: Field::Str("annie".to_string()) },
            Member { key: "note".to_string(), value: Field::Null },
            Member { key: "score".to_string(), value: Field::Number(None, "2.5".to_string()) },
            Member { key: "tags".to_string(), value: Field::Nested(r#"["a","b"]"#.to_string()) },
            Member { key: "vip".to_string(), value: Field::Bool(true) },
        ]
    );
    let sent: serde_json::Value = serde_json::from_str(&to_json(&body)).unwrap();
    let original: serde_json::Value = serde_json::from_str(record).unwrap();
    assert_eq!(sent, original);
}

#[test]
fn attrs_members_join_the_typed_columns() {
    let mut row = Row::new();
    row.push("name", Some(Cell::String("Ann".to_string())));
    row.push("attrs", Some(Cell::Json(r#"{"name":"Bob","phone":"1"}"#.to_string())));
    row.push("email", Some(Cell::String("a@example.com".to_string())));
    let body = row_to_body(&row).unwrap();
    assert_eq!(
        body,
        vec![
            Member { key: "name".to_string(), value: Field::Str("Bob".to_string()) },
            Member { key: "phone".to_string(), value: Field::Str("1".to_string()) },
            Member { key: "email".to_string(), value: Field::Str("a@example.com".to_string()) },
        ]
    );
}
