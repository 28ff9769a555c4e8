use mcauth::event::{listen_topic, parse_request_id, ChangeEvent, Decision};

#[test]
fn parses_plain_number() {
    assert_eq!(parse_request_id("42"), Some(42));
}

#[test]
fn parses_signed_numbers() {
    assert_eq!(parse_request_id("+42"), Some(42));
    assert_eq!(parse_request_id("-7"), Some(-7));
    assert_eq!(parse_request_id("-0"), Some(0));
}

#[test]
fn parses_leading_zeros() {
    assert_eq!(parse_request_id("0042"), Some(42));
    assert_eq!(parse_request_id("000000000000000000042"), Some(42));
}

#[test]
fn rejects_empty_and_sign_only() {
    assert_eq!(parse_request_id(""), None);
    assert_eq!(parse_request_id("+"), None);
    assert_eq!(parse_request_id("-"), None);
}

#[test]
fn rejects_non_digits() {
    assert_eq!(parse_request_id("abc"), None);
    assert_eq!(parse_request_id("4a2"), None);
    assert_eq!(parse_request_id("42 "), None);
    assert_eq!(parse_request_id(" 42"), None);
    assert_eq!(parse_request_id("--42"), None);
}

#[test]
fn respects_i32_bounds() {
    assert_eq!(parse_request_id("2147483647"), Some(i32::MAX));
    assert_eq!(parse_request_id("2147483648"), None);
    assert_eq!(parse_request_id("-2147483648"), Some(i32::MIN));
    assert_eq!(parse_request_id("-2147483649"), None);
    assert_eq!(parse_request_id("99999999999999999999"), None);
}

#[test]
fn listen_topic_is_fixed() {
    assert_eq!(listen_topic(), "bot_updates");
}

#[test]
fn change_event_carries_topic_and_payload() {
    let e = ChangeEvent { topic: String::from("bot_updates"), payload: String::from("42") };
    assert_eq!(e.topic, "bot_updates");
    assert_eq!(e.payload, "42");
    assert_ne!(Decision::Approved, Decision::TimedOut);
}
