use website_checker::json::push_json_string;
use website_checker::record::{report_json, WebsiteStatus};

fn record(url: &str, status: Result<u16, String>, ms: u64, ts: u64) -> WebsiteStatus {
    WebsiteStatus { url: url.to_string(), action_status: status, response_time_ms: ms, timestamp: ts }
}

#[test]
fn success_record_serializes_with_fixed_field_order() {
    let r = record("http://x", Ok(200), 42, 1700000000);
    assert_eq!(
        r.to_json_string(),
        "{\"url\": \"http://x\", \"status\": 200, \"response_time_ms\": 42, \"timestamp\": 1700000000}"
    );
}

#[test]
fn failure_record_quotes_its_message() {
    let r = record("http://y", Err("connection refused".to_string()), 7, 0);
    assert_eq!(
        r.to_json_string(),
        "{\"url\": \"http://y\", \"status\": \"connection refused\", \"response_time_ms\": 7, \"timestamp\": 0}"
    );
}

#[test]
fn quote_in_url_is_escaped() {
    let r = record("http://x/\"y", Ok(404), 1, 2);
    let json = r.to_json_string();
    assert_eq!(
        json,
        "{\"url\": \"http://x/\\\"y\", \"status\": 404, \"response_time_ms\": 1, \"timestamp\": 2}"
    );
    assert!(json.contains("\\\"y"));
}

#[test]
fn quote_in_message_is_escaped() {
    let r = record("http://z", Err("bad \"thing\"".to_string()), 3, 4);
    assert_eq!(
        r.to_json_string(),
        "{\"url\": \"http://z\", \"status\": \"bad \\\"thing\\\"\", \"response_time_ms\": 3, \"timestamp\": 4}"
    );
}

#[test]
fn backslash_and_control_characters_are_escaped() {
    let mut out = String::new();
    push_json_string(&mut out, "a\\b\nc\u{1f}");
    assert_eq!(out, "\"a\\\\b\\u000ac\\u001f\"");
}

#[test]
fn largest_numbers_are_written_in_full() {
    let r = record("u", Ok(65535), u64::MAX, u64::MAX);
    assert_eq!(
        r.to_json_string(),
        "{\"url\": \"u\", \"status\": 65535, \"response_time_ms\": 18446744073709551615, \"timestamp\": 18446744073709551615}"
    );
}

#[test]
fn zero_is_written_as_one_digit() {
    let r = record("", Ok(0), 0, 0);
    assert_eq!(r.to_json_string(), "{\"url\": \"\", \"status\": 0, \"response_time_ms\": 0, \"timestamp\": 0}");
}

#[test]
fn empty_report_is_an_empty_array() {
    assert_eq!(report_json(&Vec::new()), "[\n]");
}

#[test]
fn report_lists_records_in_order_with_commas() {
    let records = vec![record("http://a", Ok(200), 5, 10), record("http://b", Err("timeout".to_string()), 6, 11)];
    assert_eq!(
        report_json(&records),
        "[\n{\"url\": \"http://a\", \"status\": 200, \"response_time_ms\": 5, \"timestamp\": 10},\n{\"url\": \"http://b\", \"status\": \"timeout\", \"response_time_ms\": 6, \"timestamp\": 11}\n]"
    );
}

#[test]
fn summary_line_of_success() {
    let r = record("http://a", Ok(301), 12, 0);
    assert_eq!(r.summary_line(), "http://a - HTTP 301 in 12ms");
}

#[test]
fn summary_line_of_failure() {
    let r = record("http://b", Err("dns error".to_string()), 0, 0);
    assert_eq!(r.summary_line(), "http://b - ERROR: dns error in 0ms");
}
