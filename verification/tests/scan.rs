use stripe_adapter::modify::{confirm, Method, Modify, WriteError};
use stripe_adapter::codec::{DecodeError, Page};
use stripe_adapter::json::{Field, Member};
use stripe_adapter::pushdown::{Qual, Value};
use stripe_adapter::row::{Cell, Row};
use stripe_adapter::scan::{page_budget, Limit, Phase, Scan, ScanError, PAGE_SIZE};
use stripe_adapter::schema::{ConfigError, ResourceKind};

const BASE: &str = "https://api.stripe.com/v1/";

fn names(cols: &[&str]) -> Vec<String> {
    cols.iter().map(|c| c.to_string()).collect()
}

fn page(ids: &[&str], has_more: bool) -> String {
    let records: Vec<String> = ids.iter().map(|id| format!(r#"{{"id":"{}","amount":1}}"#, id)).collect();
    format!(r#"{{"object":"list","has_more":{},"data":[{}]}}"#, has_more, records.join(","))
}

fn ids(scan: &mut Scan) -> Vec<String> {
    let mut out = Vec::new();
    while let Some(row) = scan.iter_scan() {
        match &row.columns[0].cell {
            Some(Cell::String(id)) => out.push(id.clone()),
            other => panic!("no id: {:?}", other),
        }
    }
    out
}

#[test]
fn budget_is_the_ceiling_of_the_records_over_the_page_size() {
    assert_eq!(PAGE_SIZE, 100);
    assert_eq!(page_budget(None), i64::MAX);
    assert_eq!(page_budget(Some(Limit { offset: 0, count: 0 })), 0);
    assert_eq!(page_budget(Some(Limit { offset: 500, count: 0 })), 0);
    assert_eq!(page_budget(Some(Limit { offset: 0, count: 1 })), 1);
    assert_eq!(page_budget(Some(Limit { offset: 0, count: 100 })), 1);
    assert_eq!(page_budget(Some(Limit { offset: 0, count: 101 })), 2);
    assert_eq!(page_budget(Some(Limit { offset: 50, count: 100 })), 2);
    assert_eq!(page_budget(Some(Limit { offset: 0, count: 250 })), 3);
    assert_eq!(page_budget(Some(Limit { offset: 199, count: 1 })), 2);
    assert_eq!(page_budget(Some(Limit { offset: i64::MAX, count: i64::MAX })), 184467440737095517);
    assert_eq!(page_budget(Some(Limit { offset: 0, count: -5 })), 0);
}

#[test]
fn three_pages_are_fetched_in_order() {
    let mut scan = Scan::begin_scan(Some("charges"), BASE, vec![], names(&["id"]), None).unwrap();
    assert_eq!(scan.phase, Phase::Fetching);
    let mut fetches = 0;
    let pages = [page(&["a1", "a2"], true), page(&["b1"], true), page(&["c1", "c2"], false)];
    let urls = [
        "https://api.stripe.com/v1/charges?limit=100",
        "https://api.stripe.com/v1/charges?limit=100&starting_after=a2",
        "https://api.stripe.com/v1/charges?limit=100&starting_after=b1",
    ];
    while let Some(url) = scan.next_request() {
        assert_eq!(url, urls[fetches]);
        assert!(ids(&mut scan).is_empty());
        scan.on_response(&pages[fetches]);
        fetches += 1;
    }
    assert_eq!(fetches, 3);
    assert_eq!(scan.phase, Phase::Done);
    assert_eq!(ids(&mut scan), vec!["a1", "a2", "b1", "c1", "c2"]);
    assert_eq!(scan.iter_scan(), None);
    scan.end_scan();
    assert!(scan.rows.is_empty());
}

#[test]
fn a_taken_page_moves_the_cursor() {
    let row = |id: &str| {
        let mut row = Row::new();
        row.push("id", Some(Cell::String(id.to_string())));
        row
    };
    let limit = Some(Limit { offset: 0, count: 300 });
    let mut scan = Scan::begin_scan(Some("invoices"), BASE, vec![], names(&["id"]), limit).unwrap();
    assert_eq!((scan.budget, scan.page, scan.cursor.clone()), (3, 0, None));
    scan.accept(Page { rows: vec![row("a"), row("b")], cursor: Some("b".to_string()), has_more: Some(true) });
    assert_eq!((scan.page, scan.cursor.clone(), scan.phase), (1, Some("b".to_string()), Phase::Fetching));
    assert_eq!(
        scan.next_request(),
        Some("https://api.stripe.com/v1/invoices?limit=100&starting_after=b".to_string())
    );
    scan.accept(Page { rows: vec![row("c")], cursor: None, has_more: Some(true) });
    assert_eq!((scan.page, scan.cursor.clone(), scan.phase), (2, None, Phase::Fetching));
    scan.accept(Page { rows: vec![row("d")], cursor: Some("d".to_string()), has_more: Some(true) });
    assert_eq!((scan.page, scan.cursor.clone(), scan.phase), (3, Some("d".to_string()), Phase::Done));
    scan.accept(Page { rows: vec![row("e")], cursor: Some("e".to_string()), has_more: Some(true) });
    assert_eq!((scan.page, scan.cursor.clone(), scan.phase), (3, Some("d".to_string()), Phase::Done));
    assert_eq!(ids(&mut scan), vec!["a", "b", "c", "d"]);
}

#[test]
fn a_page_without_rows_or_without_more_ends_the_scan() {
    let mut row = Row::new();
    row.push("id", Some(Cell::String("a".to_string())));
    let mut scan = Scan::begin_scan(Some("invoices"), BASE, vec![], names(&["id"]), None).unwrap();
    scan.accept(Page { rows: vec![], cursor: Some("x".to_string()), has_more: Some(true) });
    assert_eq!((scan.page, scan.cursor.clone(), scan.phase), (0, None, Phase::Done));
    let mut scan = Scan::begin_scan(Some("invoices"), BASE, vec![], names(&["id"]), None).unwrap();
    scan.accept(Page { rows: vec![row.clone()], cursor: Some("a".to_string()), has_more: None });
    assert_eq!((scan.page, scan.cursor.clone(), scan.phase), (0, None, Phase::Done));
    let mut scan = Scan::begin_scan(Some("invoices"), BASE, vec![], names(&["id"]), None).unwrap();
    scan.accept(Page { rows: vec![row], cursor: Some("a".to_string()), has_more: Some(false) });
    assert_eq!((scan.page, scan.cursor.clone(), scan.phase), (0, None, Phase::Done));
    assert_eq!(scan.rows.len(), 1);
}

#[test]
fn a_count_of_zero_fetches_nothing() {
    let limit = Some(Limit { offset: 10, count: 0 });
    let mut scan = Scan::begin_scan(Some("customers"), BASE, vec![], names(&["id"]), limit).unwrap();
    assert_eq!(scan.phase, Phase::Done);
    assert_eq!(scan.next_request(), None);
    assert_eq!(scan.iter_scan(), None);
    assert!(scan.rows.is_empty());
}

#[test]
fn the_budget_stops_the_scan() {
    let limit = Some(Limit { offset: 0, count: 150 });
    let mut scan = Scan::begin_scan(Some("charges"), BASE, vec![], names(&["id"]), limit).unwrap();
    assert_eq!(scan.budget, 2);
    assert!(scan.next_request().is_some());
    scan.on_response(&page(&["a"], true));
    assert_eq!(scan.phase, Phase::Fetching);
    assert!(scan.next_request().is_some());
    scan.on_response(&page(&["b"], true));
    assert_eq!(scan.phase, Phase::Done);
    assert_eq!(scan.next_request(), None);
    assert_eq!(ids(&mut scan), vec!["a", "b"]);
}

#[test]
fn an_empty_page_ends_the_scan() {
    let mut scan = Scan::begin_scan(Some("charges"), BASE, vec![], names(&["id"]), None).unwrap();
    scan.on_response(&page(&["a"], true));
    scan.on_response(&page(&[], true));
    assert_eq!(scan.phase, Phase::Done);
    assert_eq!(scan.next_request(), None);
    assert_eq!(ids(&mut scan), vec!["a"]);
}

#[test]
fn a_page_that_does_not_say_more_ends_the_scan() {
    let mut scan = Scan::begin_scan(Some("charges"), BASE, vec![], names(&["id"]), None).unwrap();
    scan.on_response(r#"{"object":"list","data":[{"id":"only"}]}"#);
    assert_eq!(scan.phase, Phase::Done);
    assert_eq!(ids(&mut scan), vec!["only"]);
    scan.on_response(&page(&["late"], true));
    assert_eq!(scan.iter_scan(), None);
}

#[test]
fn a_failed_request_fails_the_scan_and_keeps_the_rows() {
    let mut scan = Scan::begin_scan(Some("charges"), BASE, vec![], names(&["id"]), None).unwrap();
    scan.on_response(&page(&["a", "b"], true));
    assert!(scan.next_request().is_some());
    scan.on_failure();
    assert_eq!(scan.phase, Phase::Failed(ScanError::Transport));
    assert_eq!(scan.rows.len(), 2);
    assert_eq!(scan.next_request(), None);
    assert_eq!(scan.iter_scan(), None);
    assert_eq!(scan.rows.len(), 2);
    scan.end_scan();
    assert!(scan.rows.is_empty());
    assert_eq!(scan.phase, Phase::Failed(ScanError::Transport));
}

#[test]
fn a_body_that_cannot_be_decoded_fails_the_scan() {
    let mut scan = Scan::begin_scan(Some("charges"), BASE, vec![], names(&["id"]), None).unwrap();
    scan.on_response(&page(&["a"], true));
    scan.on_response("<html>");
    assert_eq!(scan.phase, Phase::Failed(ScanError::Decode));
    assert_eq!(scan.rows.len(), 1);
    assert_eq!(scan.iter_scan(), None);
}

#[test]
fn a_scan_needs_a_known_resource() {
    assert_eq!(
        Scan::begin_scan(None, BASE, vec![], vec![], None),
        Err(ConfigError::MissingOption)
    );
    assert_eq!(
        Scan::begin_scan(Some("refunds"), BASE, vec![], vec![], None),
        Err(ConfigError::UnsupportedResource)
    );
}

#[test]
fn a_scan_without_a_url_ends_with_no_rows() {
    let mut scan = Scan::begin_scan(Some("charges"), "no base", vec![], names(&["id"]), None).unwrap();
    assert_eq!(scan.next_request(), None);
    assert_eq!(scan.phase, Phase::Done);
    assert_eq!(scan.iter_scan(), None);
}

#[test]
fn a_lookup_by_id_fetches_one_object() {
    let quals = vec![Qual {
        field: "id".to_string(),
        operator: "=".to_string(),
        value: Value::Cell(Cell::String("cus_7".to_string())),
        use_or: false,
    }];
    let mut scan = Scan::begin_scan(Some("customers"), BASE, quals, names(&["id", "name"]), None).unwrap();
    assert_eq!(scan.next_request(), Some("https://api.stripe.com/v1/customers/cus_7".to_string()));
    scan.on_response(r#"{"id":"cus_7","object":"customer","name":"Ann"}"#);
    assert_eq!(scan.phase, Phase::Done);
    assert_eq!(scan.rows.len(), 1);
    let row = scan.iter_scan().unwrap();
    assert_eq!(row.columns[1].cell, Some(Cell::String("Ann".to_string())));
    assert_eq!(scan.iter_scan(), None);
}

#[test]
fn mutations_need_both_options_and_a_known_resource() {
    assert_eq!(Modify::begin_modify(None, Some("id"), BASE), Err(ConfigError::MissingOption));
    assert_eq!(Modify::begin_modify(Some("customers"), None, BASE), Err(ConfigError::MissingOption));
    assert_eq!(Modify::begin_modify(Some("nothing"), Some("id"), BASE), Err(ConfigError::UnsupportedResource));
    let modify = Modify::begin_modify(Some("customers"), Some("id"), BASE).unwrap();
    assert_eq!(modify.kind, ResourceKind::Customers);
    assert_eq!(modify.rowid_column, "id");
    assert_eq!(modify.base_url, BASE);
}

#[test]
fn insert_posts_the_body_to_the_collection() {
    let modify = Modify::begin_modify(Some("customers"), Some("id"), BASE).unwrap();
    let mut row = Row::new();
    row.push("email", Some(Cell::String("a@example.com".to_string())));
    let request = modify.insert(&row).unwrap();
    assert_eq!(request.method, Method::Post);
    assert_eq!(request.url, "https://api.stripe.com/v1/customers");
    assert_eq!(
        request.body,
        Some(vec![Member { key: "email".to_string(), value: Field::Str("a@example.com".to_string()) }])
    );
}

#[test]
fn update_and_delete_address_the_record() {
    let modify = Modify::begin_modify(Some("products"), Some("id"), BASE).unwrap();
    let id = Cell::String("prod_1".to_string());
    let mut row = Row::new();
    row.push("active", Some(Cell::Bool(false)));
    let request = modify.update(&id, &row).unwrap();
    assert_eq!(request.method, Method::Post);
    assert_eq!(request.url, "https://api.stripe.com/v1/products/prod_1");
    assert_eq!(request.body, Some(vec![Member { key: "active".to_string(), value: Field::Bool(false) }]));
    let request = modify.delete(&id).unwrap();
    assert_eq!(request.method, Method::Delete);
    assert_eq!(request.url, "https://api.stripe.com/v1/products/prod_1");
    assert_eq!(request.body, None);
}

#[test]
fn rows_that_cannot_be_sent_are_refused() {
    let modify = Modify::begin_modify(Some("products"), Some("id"), BASE).unwrap();
    let mut row = Row::new();
    row.push("created", Some(Cell::Timestamp(1)));
    assert_eq!(modify.insert(&row), Err(WriteError::UnsupportedType));
    assert_eq!(modify.update(&Cell::String("prod_1".to_string()), &row), Err(WriteError::UnsupportedType));
    let nowhere = Modify::begin_modify(Some("products"), Some("id"), "nowhere").unwrap();
    assert_eq!(nowhere.insert(&Row::new()), Err(WriteError::InvalidUrl));
    assert_eq!(nowhere.update(&Cell::String("p".to_string()), &Row::new()), Err(WriteError::InvalidUrl));
    assert_eq!(nowhere.delete(&Cell::String("p".to_string())), Err(WriteError::InvalidUrl));
}

#[test]
fn the_response_confirms_the_identifier() {
    assert_eq!(confirm(r#"{"id":"cus_1","deleted":true}"#), Ok(Some("cus_1".to_string())));
    assert_eq!(confirm(r#"{"deleted":true}"#), Ok(None));
    assert_eq!(confirm(r#"{"id":5}"#), Ok(None));
    assert_eq!(confirm("oops"), Err(DecodeError::Malformed));
}
