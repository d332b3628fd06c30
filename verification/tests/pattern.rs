//! Tests for the event-pattern builder.

use watchrs::filter::{build_detail_json, build_event_pattern, BatchRuleDetails};

fn filter(
    statuses: Option<Vec<&str>>,
    job_names: Option<Vec<&str>>,
    job_queues: Option<Vec<&str>>,
) -> BatchRuleDetails {
    let own = |v: Option<Vec<&str>>| v.map(|v| v.into_iter().map(|s| s.to_owned()).collect());
    BatchRuleDetails {
        statuses: own(statuses),
        job_names: own(job_names),
        job_queues: own(job_queues),
    }
}

#[test]
fn empty_filter_pattern_has_no_detail_key() {
    let pattern = build_event_pattern(&BatchRuleDetails::default());
    assert_eq!(
        pattern,
        "{\"detail-type\":[\"Batch Job State Change\"],\"source\":[\"aws.batch\"]}"
    );
    assert!(!pattern.contains("\"detail\":"));
}

#[test]
fn empty_filter_pattern_is_valid_json() {
    let pattern = build_event_pattern(&BatchRuleDetails::default());
    let value: serde_json::Value = serde_json::from_str(&pattern).expect("valid JSON");
    let object = value.as_object().expect("an object");
    assert_eq!(object.len(), 2);
    assert!(object.contains_key("detail-type"));
    assert!(object.contains_key("source"));
    assert!(!object.contains_key("detail"));
}

#[test]
fn single_status_pattern_matches_expected_text() {
    let pattern = build_event_pattern(&filter(Some(vec!["FAILED"]), None, None));
    assert_eq!(
        pattern,
        "{\"detail-type\":[\"Batch Job State Change\"],\"source\":[\"aws.batch\"],\
         \"detail\":{\"status\":[\"FAILED\"]}}"
    );
}

#[test]
fn detail_holds_only_present_keys_renamed() {
    let pattern = build_event_pattern(&filter(
        Some(vec!["FAILED", "RUNNABLE"]),
        None,
        Some(vec!["arn:aws:batch:us-east-1:123:job-queue/q"]),
    ));
    let value: serde_json::Value = serde_json::from_str(&pattern).expect("valid JSON");
    let detail = value["detail"].as_object().expect("a detail object");
    assert_eq!(detail.len(), 2);
    assert_eq!(detail["status"][0], "FAILED");
    assert_eq!(detail["status"][1], "RUNNABLE");
    assert_eq!(detail["jobQueue"][0], "arn:aws:batch:us-east-1:123:job-queue/q");
    assert!(!detail.contains_key("jobName"));
}

#[test]
fn detail_with_all_fields_keeps_declaration_order() {
    let json = build_detail_json(&filter(
        Some(vec!["SUCCEEDED"]),
        Some(vec!["job-a", "job-b"]),
        Some(vec!["queue-a"]),
    ));
    assert_eq!(
        json,
        "{\"status\":[\"SUCCEEDED\"],\"jobName\":[\"job-a\",\"job-b\"],\"jobQueue\":[\"queue-a\"]}"
    );
}

#[test]
fn detail_with_only_job_names() {
    let json = build_detail_json(&filter(None, Some(vec!["nightly"]), None));
    assert_eq!(json, "{\"jobName\":[\"nightly\"]}");
}

#[test]
fn detail_with_empty_value_list_keeps_the_key() {
    let json = build_detail_json(&filter(Some(vec![]), None, None));
    assert_eq!(json, "{\"status\":[]}");
}

#[test]
fn pattern_escapes_quotes_and_backslashes() {
    let pattern = build_event_pattern(&filter(Some(vec!["a\"b\\c"]), None, None));
    assert!(pattern.contains("a\\\"b\\\\c"));
    let value: serde_json::Value = serde_json::from_str(&pattern).expect("valid JSON");
    assert_eq!(value["detail"]["status"][0], "a\"b\\c");
}

#[test]
fn pattern_escapes_control_characters() {
    let pattern = build_event_pattern(&filter(None, Some(vec!["a\nb\tc\u{1}d"]), None));
    assert!(pattern.contains("a\\nb\\tc\\u0001d"));
    let value: serde_json::Value = serde_json::from_str(&pattern).expect("valid JSON");
    assert_eq!(value["detail"]["jobName"][0], "a\nb\tc\u{1}d");
}

#[test]
fn pattern_keeps_unicode_text() {
    let pattern = build_event_pattern(&filter(None, None, Some(vec!["k\u{f6}-\u{3bb}"])));
    let value: serde_json::Value = serde_json::from_str(&pattern).expect("valid JSON");
    assert_eq!(value["detail"]["jobQueue"][0], "k\u{f6}-\u{3bb}");
}
