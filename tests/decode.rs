use osu_api_rs::decode::{
    check_record, classify_list, classify_record, first_record, last_record, nth_record, ErrorMember,
};
use osu_api_rs::ApiError;
use serde_json::Value;

#[test]
fn empty_list_is_no_data() {
    let r = classify_list(serde_json::from_str::<Vec<Value>>("[]"));
    assert!(matches!(r, Err(ApiError::Null)));
}

#[test]
fn list_with_items_is_kept() {
    let r = classify_list(serde_json::from_str::<Vec<Value>>("[1, 2]"));
    let v = r.unwrap();
    assert_eq!(v.len(), 2);
    assert_eq!(v[1], Value::from(2));
}

#[test]
fn malformed_list_is_an_error() {
    assert!(matches!(classify_list(serde_json::from_str::<Vec<Value>>("{}")), Err(ApiError::Error(_))));
    assert!(matches!(classify_list(serde_json::from_str::<Vec<Value>>("not json")), Err(ApiError::Error(_))));
    assert!(matches!(classify_list(serde_json::from_str::<Vec<u8>>("[\"a\"]")), Err(ApiError::Error(_))));
}

#[test]
fn null_error_member_is_no_data() {
    assert!(matches!(check_record("{\"error\": null}"), Err(ApiError::Null)));
}

#[test]
fn other_records_pass_the_check() {
    assert!(check_record("{\"id\": 1}").is_ok());
    assert!(check_record("{\"error\": \"nope\"}").is_ok());
    assert!(check_record("[]").is_ok());
}

#[test]
fn non_json_record_is_malformed() {
    assert!(matches!(check_record("<html>"), Err(ApiError::Error(_))));
    assert!(matches!(check_record(""), Err(ApiError::Error(_))));
}

#[test]
fn record_classification() {
    assert!(matches!(classify_record(Ok(ErrorMember::Null)), Err(ApiError::Null)));
    assert!(classify_record(Ok(ErrorMember::Absent)).is_ok());
    assert!(classify_record(Ok(ErrorMember::Present)).is_ok());
    let e = serde_json::from_str::<Value>("{").unwrap_err();
    assert!(matches!(classify_record(Err(e)), Err(ApiError::Error(_))));
}

#[test]
fn first_record_picks_the_head() {
    assert_eq!(first_record(vec![4, 5, 6]).unwrap(), 4);
    assert!(matches!(first_record(Vec::<u8>::new()), Err(ApiError::Null)));
}

#[test]
fn nth_record_counts_from_one() {
    assert_eq!(nth_record(vec![4, 5, 6], 1).unwrap(), 4);
    assert_eq!(nth_record(vec![4, 5, 6], 3).unwrap(), 6);
    assert!(matches!(nth_record(vec![4, 5, 6], 4), Err(ApiError::Null)));
    assert!(matches!(nth_record(vec![4, 5, 6], 0), Err(ApiError::Null)));
    assert!(matches!(nth_record(vec![4, 5, 6], -1), Err(ApiError::Null)));
}

#[test]
fn last_record_picks_the_tail() {
    assert_eq!(last_record(vec![4, 5, 6]).unwrap(), 6);
    assert!(matches!(last_record(Vec::<u8>::new()), Err(ApiError::Null)));
}
