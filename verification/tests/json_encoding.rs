use user_management::health::{health_body, HealthStatus};
use user_management::json::{encode_json_string, encode_object_one, hex_digit};

#[test]
fn health_record_serializes_to_fixed_body() {
    let record = HealthStatus::new();
    assert_eq!(record.status, "ok");
    assert_eq!(record.to_json(), "{\"status\":\"ok\"}");
    assert_eq!(health_body(), "{\"status\":\"ok\"}");
}

#[test]
fn plain_text_is_quoted_unchanged() {
    assert_eq!(encode_json_string("ok"), "\"ok\"");
    assert_eq!(encode_json_string(""), "\"\"");
    assert_eq!(encode_json_string("user-management ok"), "\"user-management ok\"");
}

#[test]
fn quotes_and_backslashes_are_escaped() {
    assert_eq!(encode_json_string("a\"b"), "\"a\\\"b\"");
    assert_eq!(encode_json_string("a\\b"), "\"a\\\\b\"");
    assert_eq!(encode_json_string("\"\\"), "\"\\\"\\\\\"");
}

#[test]
fn control_characters_get_unicode_escapes() {
    assert_eq!(encode_json_string("\n"), "\"\\u000a\"");
    assert_eq!(encode_json_string("\t"), "\"\\u0009\"");
    assert_eq!(encode_json_string("\u{1f}"), "\"\\u001f\"");
    assert_eq!(encode_json_string("a\nb"), "\"a\\u000ab\"");
}

#[test]
fn characters_past_ascii_stand_as_they_are() {
    assert_eq!(encode_json_string("héllo"), "\"héllo\"");
}

#[test]
fn one_key_object_wraps_both_strings() {
    assert_eq!(encode_object_one("status", "ok"), "{\"status\":\"ok\"}");
    assert_eq!(encode_object_one("k\"ey", "v\\al"), "{\"k\\\"ey\":\"v\\\\al\"}");
}

#[test]
fn status_other_than_ok_is_escaped_too() {
    let record = HealthStatus { status: String::from("de\"graded") };
    assert_eq!(record.to_json(), "{\"status\":\"de\\\"graded\"}");
}

#[test]
fn hex_digits_are_lower_case() {
    assert_eq!(hex_digit(0), '0');
    assert_eq!(hex_digit(9), '9');
    assert_eq!(hex_digit(10), 'a');
    assert_eq!(hex_digit(15), 'f');
}
