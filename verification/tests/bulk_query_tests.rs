use std::collections::HashMap;

use block_mesh_manager::bulk_query::{
    bulk_query, rows_of, set_to_aggregates_create_bulk_query, QUERY_HEAD, QUERY_MIDDLE, QUERY_TAIL,
};

const USER_A: u128 = 0x936da01f_9abd_4d9d_80c7_02af85c822a8;
const USER_B: u128 = 0x550e8400_e29b_41d4_a716_446655440000;

#[test]
fn bulk_query_with_no_rows_is_the_bare_statement() {
    let q = bulk_query(&Vec::new(), "2024-01-01T00:00:00+00:00");
    assert_eq!(q, format!("{}{}{}", QUERY_HEAD, QUERY_MIDDLE, QUERY_TAIL));
}

#[test]
fn bulk_query_writes_one_row() {
    let rows = vec![(USER_A, "uptime".to_string(), "12.5".to_string())];
    let q = bulk_query(&rows, "2024-01-01T00:00:00+00:00");
    let expected = format!(
        "{}('936da01f-9abd-4d9d-80c7-02af85c822a8'::uuid, 'uptime'){}('936da01f-9abd-4d9d-80c7-02af85c822a8'::uuid, '12.5'::jsonb, '2024-01-01T00:00:00+00:00'::timestamptz, 'uptime'){}",
        QUERY_HEAD, QUERY_MIDDLE, QUERY_TAIL
    );
    assert_eq!(q, expected);
}

#[test]
fn bulk_query_separates_rows_with_commas_in_order() {
    let rows = vec![
        (USER_A, "a".to_string(), "1".to_string()),
        (USER_B, "b".to_string(), "2".to_string()),
    ];
    let q = bulk_query(&rows, "T");
    let expected = format!(
        "{}('936da01f-9abd-4d9d-80c7-02af85c822a8'::uuid, 'a'),('550e8400-e29b-41d4-a716-446655440000'::uuid, 'b'){}('936da01f-9abd-4d9d-80c7-02af85c822a8'::uuid, '1'::jsonb, 'T'::timestamptz, 'a'),('550e8400-e29b-41d4-a716-446655440000'::uuid, '2'::jsonb, 'T'::timestamptz, 'b'){}",
        QUERY_HEAD, QUERY_MIDDLE, QUERY_TAIL
    );
    assert_eq!(q, expected);
}

#[test]
fn bulk_query_writes_the_nil_user_with_zeros() {
    let rows = vec![(0u128, "n".to_string(), "0".to_string())];
    let q = bulk_query(&rows, "T");
    assert!(q.contains("('00000000-0000-0000-0000-000000000000'::uuid, 'n')"));
}

#[test]
fn bulk_query_statement_text_is_fixed() {
    assert!(QUERY_HEAD.contains("WHERE (user_id, name) IN ( "));
    assert!(QUERY_MIDDLE.contains("FOR UPDATE SKIP LOCKED"));
    assert!(QUERY_TAIL.contains("to_jsonb(updates.value::double precision)"));
}

#[test]
fn rows_of_lists_each_entry_once() {
    let mut calls = HashMap::new();
    calls.insert(USER_A, ("a".to_string(), "1".to_string()));
    calls.insert(USER_B, ("b".to_string(), "2".to_string()));
    let mut rows = rows_of(&calls);
    rows.sort();
    assert_eq!(
        rows,
        vec![
            (USER_B, "b".to_string(), "2".to_string()),
            (USER_A, "a".to_string(), "1".to_string()),
        ]
    );
}

#[test]
fn set_to_aggregates_create_bulk_query_covers_every_user() {
    let mut calls = HashMap::new();
    calls.insert(USER_A, ("uptime".to_string(), "3".to_string()));
    calls.insert(USER_B, ("points".to_string(), "4.5".to_string()));
    let q = set_to_aggregates_create_bulk_query(calls);
    assert!(q.starts_with(QUERY_HEAD));
    assert!(q.ends_with(QUERY_TAIL));
    assert!(q.contains("('936da01f-9abd-4d9d-80c7-02af85c822a8'::uuid, 'uptime')"));
    assert!(q.contains("('550e8400-e29b-41d4-a716-446655440000'::uuid, 'points')"));
    assert!(q.contains("('936da01f-9abd-4d9d-80c7-02af85c822a8'::uuid, '3'::jsonb, '"));
    assert!(q.contains("('550e8400-e29b-41d4-a716-446655440000'::uuid, '4.5'::jsonb, '"));
    assert_eq!(q.matches("::timestamptz").count(), 2);
}

#[test]
fn set_to_aggregates_create_bulk_query_of_nothing() {
    let q = set_to_aggregates_create_bulk_query(HashMap::new());
    assert_eq!(q, format!("{}{}{}", QUERY_HEAD, QUERY_MIDDLE, QUERY_TAIL));
}

#[test]
fn set_to_aggregates_create_bulk_query_stamps_the_current_time() {
    let mut calls = HashMap::new();
    calls.insert(USER_A, ("uptime".to_string(), "3".to_string()));
    let q = set_to_aggregates_create_bulk_query(calls);
    let start = q.find("'::jsonb, '").unwrap() + "'::jsonb, '".len();
    let end = q.find("'::timestamptz").unwrap();
    let stamp = &q[start..end];
    assert!(stamp.len() >= 25);
    assert!(stamp.starts_with("20"));
    assert!(stamp.ends_with("+00:00"));
    assert_eq!(&stamp[10..11], "T");
}
