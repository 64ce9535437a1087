use ai_agent::clock::{format_timestamp, LocalDateTime};
use ai_agent::time_tool::{time_document, GetCurrentTime, GetCurrentTimeArgs};
use serde_json::Value;

fn reading(year: i32, month: u32, day: u32, hour: u32, minute: u32, second: u32) -> LocalDateTime {
    LocalDateTime { year, month, day, hour, minute, second }
}

fn has_timestamp_shape(s: &str) -> bool {
    let b = s.as_bytes();
    b.len() == 19
        && b.iter().enumerate().all(|(i, c)| match i {
            4 | 7 => *c == b'-',
            10 => *c == b' ',
            13 | 16 => *c == b':',
            _ => c.is_ascii_digit(),
        })
}

#[test]
fn format_pads_each_field() {
    assert_eq!(format_timestamp(&reading(2024, 3, 5, 7, 8, 9)), "2024-03-05 07:08:09");
}

#[test]
fn format_two_digit_fields() {
    assert_eq!(format_timestamp(&reading(1999, 12, 31, 23, 59, 58)), "1999-12-31 23:59:58");
}

#[test]
fn format_small_year_is_zero_padded() {
    assert_eq!(format_timestamp(&reading(7, 1, 1, 0, 0, 0)), "0007-01-01 00:00:00");
}

#[test]
fn format_years_outside_four_digits_carry_a_sign() {
    assert_eq!(format_timestamp(&reading(12345, 6, 7, 8, 9, 10)), "+12345-06-07 08:09:10");
    assert_eq!(format_timestamp(&reading(-5, 6, 7, 8, 9, 10)), "-0005-06-07 08:09:10");
}

#[test]
fn time_document_holds_only_the_reading() {
    let doc = time_document(&reading(2025, 10, 1, 12, 30, 0));
    let obj = doc.as_object().expect("an object");
    assert_eq!(obj.len(), 1);
    assert_eq!(obj.get("current_time"), Some(&Value::String("2025-10-01 12:30:00".to_string())));
}

#[test]
fn time_tool_call_answers_with_timestamp() {
    let doc = GetCurrentTime.call(GetCurrentTimeArgs {});
    let obj = doc.as_object().expect("an object");
    assert_eq!(obj.len(), 1);
    let text = obj.get("current_time").and_then(|v| v.as_str()).expect("a text");
    assert!(has_timestamp_shape(text), "{}", text);
}

#[test]
fn time_tool_definition() {
    let d = GetCurrentTime.definition();
    assert_eq!(d.name, "get_current_time");
    assert_eq!(GetCurrentTime.name(), "get_current_time");
    assert_eq!(d.description, "Get the current local time");
    let p = d.parameters.as_object().expect("an object");
    assert_eq!(p.len(), 3);
    assert_eq!(p.get("type"), Some(&Value::String("object".to_string())));
    assert_eq!(p.get("properties"), Some(&Value::Object(serde_json::Map::new())));
    assert_eq!(p.get("required"), Some(&Value::Array(Vec::new())));
}
