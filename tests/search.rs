use gong_mcp::{
    apply_limit, finish_search, search_result, validate_search_args, ArgEntry, ArgItem, ArgValue,
    CallMeta, CallPage, CallRecord, GongError, SearchArgs, UpstreamFailure,
};

fn entry(key: &str, value: ArgValue) -> ArgEntry {
    ArgEntry { key: key.to_string(), value }
}

fn text(s: &str) -> ArgValue {
    ArgValue::Text(s.to_string())
}

fn texts(items: &[&str]) -> ArgValue {
    ArgValue::List(items.iter().map(|s| ArgItem::Text(s.to_string())).collect())
}

fn no_args() -> SearchArgs {
    validate_search_args(&None).unwrap()
}

fn record(id: &str) -> CallRecord {
    CallRecord {
        meta: Some(CallMeta {
            id: Some(id.to_string()),
            url: None,
            title: None,
            scheduled: None,
            started: None,
            duration: None,
            primary_user_id: None,
            direction: None,
            system: None,
            scope: None,
            media: None,
            language: None,
            workspace_id: None,
            sdr_disposition: None,
            client_unique_id: None,
            custom_data: None,
            purpose: None,
            meeting_url: None,
            is_private: None,
            calendar_event_id: None,
        }),
        parties: None,
    }
}

#[test]
fn test_parameter_extraction_from_json() {
    let args = Some(vec![
        entry("from_date_time", text("2024-01-01T00:00:00Z")),
        entry("to_date_time", text("2024-01-31T23:59:59Z")),
        entry("workspace_id", text("W123")),
        entry("call_ids", texts(&["call1", "call2"])),
        entry("primary_user_ids", texts(&["user1", "user2"])),
    ]);
    let parsed = validate_search_args(&args).unwrap();
    assert_eq!(parsed.from_date_time.as_deref(), Some("2024-01-01T00:00:00Z"));
    assert_eq!(parsed.call_ids, Some(vec!["call1".to_string(), "call2".to_string()]));
}

#[test]
fn test_result_truncation_logic() {
    let calls = vec!["1", "2", "3", "4", "5"];
    let total = calls.len();
    let (truncated_calls, is_truncated) = apply_limit(calls, Some(3));
    assert_eq!(truncated_calls.len(), 3, "Should have 3 calls after truncation");
    assert_eq!(total, 5, "Total should be 5 before truncation");
    assert!(is_truncated, "Should be marked as truncated");
}

#[test]
fn test_result_no_truncation_when_under_limit() {
    let calls = vec!["1", "2"];
    let total = calls.len();
    let (truncated_calls, is_truncated) = apply_limit(calls, Some(5));
    assert_eq!(truncated_calls.len(), 2, "Should have all 2 calls");
    assert_eq!(total, 2, "Total should be 2");
    assert!(!is_truncated, "Should NOT be marked as truncated when under limit");
}

#[test]
fn test_new_parameter_extraction() {
    let args = Some(vec![
        entry("from_date_time", text("2024-01-01T00:00:00Z")),
        entry("limit", ArgValue::UInt(10)),
        entry("include_structure", ArgValue::Bool(true)),
    ]);
    let parsed = validate_search_args(&args).unwrap();
    assert_eq!(parsed.limit, Some(10), "Limit should be 10");
    assert!(parsed.include_structure, "include_structure should be true");
}

#[test]
fn test_include_structure_default_false() {
    let args = Some(vec![entry("from_date_time", text("2024-01-01T00:00:00Z"))]);
    let parsed = validate_search_args(&args).unwrap();
    assert!(!parsed.include_structure, "include_structure should default to false when not provided");
}

#[test]
fn truncation_keeps_upstream_order() {
    let (kept, truncated) = apply_limit(vec![5, 4, 3, 2, 1], Some(2));
    assert_eq!(kept, vec![5, 4]);
    assert!(truncated);
    let (kept, truncated) = apply_limit(vec![1, 2, 3], None);
    assert_eq!(kept, vec![1, 2, 3]);
    assert!(!truncated);
    let (kept, truncated) = apply_limit(vec![1, 2, 3], Some(3));
    assert_eq!(kept.len(), 3);
    assert!(!truncated);
    let (kept, truncated) = apply_limit(vec![1, 2, 3], Some(0));
    assert!(kept.is_empty());
    assert!(truncated);
    let (kept, truncated) = apply_limit(Vec::<u8>::new(), Some(u64::MAX));
    assert!(kept.is_empty());
    assert!(!truncated);
}

#[test]
fn absent_and_null_arguments_take_defaults() {
    let parsed = validate_search_args(&None).unwrap();
    assert_eq!(parsed.from_date_time, None);
    assert_eq!(parsed.call_ids, None);
    assert_eq!(parsed.limit, None);
    assert!(!parsed.include_structure);
    let args = Some(vec![
        entry("cursor", ArgValue::Null),
        entry("limit", ArgValue::Null),
        entry("include_structure", ArgValue::Null),
        entry("unrelated", ArgValue::Object),
    ]);
    let parsed = validate_search_args(&args).unwrap();
    assert_eq!(parsed, no_args());
}

#[test]
fn mistyped_arguments_are_invalid_params() {
    let bad = |key: &str, value: ArgValue| validate_search_args(&Some(vec![entry(key, value)]));
    let invalid = |key: &str| Err(GongError::InvalidArgument { key: key.to_string() });
    assert_eq!(bad("from_date_time", ArgValue::UInt(1)), invalid("from_date_time"));
    assert_eq!(bad("to_date_time", ArgValue::Bool(true)), invalid("to_date_time"));
    assert_eq!(bad("workspace_id", texts(&["w"])), invalid("workspace_id"));
    assert_eq!(bad("call_ids", text("c1")), invalid("call_ids"));
    assert_eq!(
        bad("primary_user_ids", ArgValue::List(vec![ArgItem::Text("u".to_string()), ArgItem::Other])),
        invalid("primary_user_ids")
    );
    assert_eq!(bad("cursor", ArgValue::Number), invalid("cursor"));
    assert_eq!(bad("limit", ArgValue::Number), invalid("limit"));
    assert_eq!(bad("limit", text("10")), invalid("limit"));
    assert_eq!(bad("include_structure", text("true")), invalid("include_structure"));
    let two_bad = Some(vec![entry("limit", ArgValue::Number), entry("cursor", ArgValue::Bool(false))]);
    assert_eq!(validate_search_args(&two_bad), invalid("cursor"));
}

#[test]
fn first_entry_of_a_key_wins() {
    let args = Some(vec![entry("cursor", text("a")), entry("cursor", text("b"))]);
    assert_eq!(validate_search_args(&args).unwrap().cursor.as_deref(), Some("a"));
}

#[test]
fn search_result_reports_truncation_and_continuation_apart() {
    let mut args = no_args();
    args.limit = Some(3);
    let page = CallPage {
        calls: Some(vec![record("1"), record("2"), record("3"), record("4"), record("5")]),
        cursor: None,
    };
    let r = search_result(args.clone(), page);
    assert_eq!(r.count, 3);
    assert_eq!(r.total_available, 5);
    assert!(r.truncated);
    assert!(!r.has_more);
    assert_eq!(r.next_cursor, None);
    let ids: Vec<&str> = r.calls.iter().map(|c| c.id.as_str()).collect();
    assert_eq!(ids, vec!["1", "2", "3"]);
    assert_eq!(r.filters, args);

    let page = CallPage { calls: Some(vec![record("1"), record("2")]), cursor: Some("next".to_string()) };
    let r = search_result(no_args(), page);
    assert_eq!(r.count, 2);
    assert!(!r.truncated);
    assert!(r.has_more);
    assert_eq!(r.next_cursor.as_deref(), Some("next"));
}

#[test]
fn empty_search_is_a_success() {
    let r = finish_search(no_args(), Ok(CallPage { calls: None, cursor: None })).unwrap();
    assert!(r.calls.is_empty());
    assert_eq!(r.count, 0);
    assert_eq!(r.total_available, 0);
    assert!(!r.truncated);
    assert!(!r.has_more);
}

#[test]
fn search_failures_are_propagated() {
    let r = finish_search(
        no_args(),
        Err(UpstreamFailure::Status { code: 404, message: "gone".to_string() }),
    );
    assert_eq!(r, Err(GongError::Upstream { status: Some(404), message: "gone".to_string() }));
    let r = finish_search(no_args(), Err(UpstreamFailure::Decode { message: "bad".to_string() }));
    assert_eq!(r, Err(GongError::Decode { message: "bad".to_string() }));
}
