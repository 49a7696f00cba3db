use dns_checker::notify::{
    build_payload, mismatch_message, notification_text, parse_json, recovered_message,
};
use dns_checker::reconcile::NotifyKind;

#[test]
fn telegram_test_parse_json() {
    // Call the function with a JSON string that has "ok": true
    let result = parse_json(String::from("{\"ok\": true}"));

    // Assert that the function returns true
    assert_eq!(result, true);

    // Call the function with a JSON string that has "ok": false
    let result = parse_json(String::from("{\"ok\": false}"));

    // Assert that the function returns false
    assert_eq!(result, false);

    // Call the function with a JSON string that does not have "ok"
    let result = parse_json(String::from("{\"foo\": \"bar\"}"));

    // Assert that the function returns false
    assert_eq!(result, false);

    // Call the function with a string that is not valid JSON
    let result = parse_json(String::from("not valid JSON"));

    // Assert that the function returns false
    assert_eq!(result, false);
}

#[test]
fn parse_json_rejects_ok_of_the_wrong_type() {
    assert_eq!(parse_json(String::from("{\"ok\": \"true\"}")), false);
    assert_eq!(parse_json(String::from("{\"ok\": 1}")), false);
}

#[test]
fn message_texts_are_the_canonical_ones() {
    assert_eq!(
        mismatch_message("1.2.3.4", "5.6.7.8"),
        "IP address mismatch between router and DNS server!\nRouter IP: 1.2.3.4\nDNS IP: 5.6.7.8"
    );
    assert_eq!(recovered_message(), "IP addresses are the same again");
    assert_eq!(
        notification_text(NotifyKind::Mismatch, "1.2.3.4", "5.6.7.8"),
        mismatch_message("1.2.3.4", "5.6.7.8")
    );
    assert_eq!(
        notification_text(NotifyKind::Recovered, "1.2.3.4", "5.6.7.8"),
        recovered_message()
    );
}

#[test]
fn payload_is_the_expected_json() {
    assert_eq!(
        build_payload("111", "hello"),
        "{\"chat_id\":\"111\",\"text\":\"hello\",\"disable_notification\":false}"
    );
}

#[test]
fn payload_escapes_the_text() {
    assert_eq!(
        build_payload("111", "a \"quoted\" line\nand a back\\slash"),
        "{\"chat_id\":\"111\",\"text\":\"a \\\"quoted\\\" line\\nand a back\\\\slash\",\
         \"disable_notification\":false}"
    );
    assert_eq!(
        build_payload("111", "tab\there\rbell\u{0007}"),
        "{\"chat_id\":\"111\",\"text\":\"tab\\there\\rbell\\u0007\",\
         \"disable_notification\":false}"
    );
}

#[test]
fn payload_parses_back_to_its_fields() {
    // The payload must be well-formed JSON that any reader recovers the
    // message from, whatever the text holds.
    let text = "odd text: \"quotes\", back\\slashes,\nnewlines, \u{0001} controls, caf\u{00e9}";
    let payload = build_payload("42", text);
    let value: serde_json::Value = serde_json::from_str(&payload).unwrap();
    assert_eq!(value.get("chat_id").unwrap().as_str().unwrap(), "42");
    assert_eq!(value.get("text").unwrap().as_str().unwrap(), text);
    assert_eq!(value.get("disable_notification").unwrap().as_bool().unwrap(), false);
}
