use meetily::summary_status::{summary_response, SummaryProcessRecord};

fn record(status: &str, result: Option<&str>) -> SummaryProcessRecord {
    SummaryProcessRecord {
        status: status.to_string(),
        result: result.map(|r| r.to_string()),
        error: Some("boom".to_string()),
        start: Some("2026-07-28T10:30:00+00:00".to_string()),
        end: None,
    }
}

#[test]
fn no_process_is_idle() {
    let r = summary_response("m1".to_string(), None, Some("Standup".to_string()));
    assert_eq!(r.status, "idle");
    assert_eq!(r.meeting_id, "m1");
    assert_eq!(r.meeting_name.as_deref(), Some("Standup"));
    assert!(r.start.is_none() && r.end.is_none() && r.data.is_none() && r.error.is_none());
}

#[test]
fn process_status_is_lowercased_and_fields_pass_through() {
    let r = summary_response("m1".to_string(), Some(record("COMPLETED", Some("{\"a\":1}"))), None);
    assert_eq!(r.status, "completed");
    assert_eq!(r.meeting_name, None);
    assert_eq!(r.error.as_deref(), Some("boom"));
    assert_eq!(r.start.as_deref(), Some("2026-07-28T10:30:00+00:00"));
    assert_eq!(r.end, None);
    assert_eq!(r.data.unwrap()["a"], 1);
    let r = summary_response("m1".to_string(), Some(record("Processing", Some("{\"a\":1}"))), None);
    assert_eq!(r.data, serde_json::from_str::<serde_json::Value>("{\"a\":1}").ok());
}

#[test]
fn result_is_parsed_whatever_the_status() {
    let r = summary_response("m".to_string(), Some(record("Cancelled", Some("[1, 2]"))), None);
    assert_eq!(r.status, "cancelled");
    assert!(r.data.unwrap().is_array());
}

#[test]
fn unparsable_or_missing_result_gives_no_data() {
    let r = summary_response("m".to_string(), Some(record("failed", Some("{not json"))), None);
    assert!(r.data.is_none());
    let r = summary_response("m".to_string(), Some(record("pending", None)), None);
    assert!(r.data.is_none());
}
