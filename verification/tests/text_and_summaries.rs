use sigroute::action_summary;
use sigroute::common::{AutomationAction, AutomationTrigger, A_COMMAND, A_NOTIFICATION, T_CERTAIN_DAYS, T_REPEAT_EVERY};
use sigroute::json::{parse_json, parse_object, quote_json_string, write_json_object, JsonValue};
use sigroute::text::{concatenate_list_with_and, concatenate_strs_with_comma, int_to_string, push_int_pad2, split_whitespace};
use sigroute::trigger_summary;

fn strings(v: &[&str]) -> Vec<String> {
    v.iter().map(|s| s.to_string()).collect()
}

#[test]
fn decimal_numbers() {
    assert_eq!(int_to_string(0), "0");
    assert_eq!(int_to_string(1234), "1234");
    assert_eq!(int_to_string(-56), "-56");
    assert_eq!(int_to_string(i64::MIN), "-9223372036854775808");
    let mut s = String::new();
    push_int_pad2(&mut s, 7);
    push_int_pad2(&mut s, 42);
    push_int_pad2(&mut s, -5);
    assert_eq!(s, "0742-5");
}

#[test]
fn comma_joining() {
    assert_eq!(concatenate_strs_with_comma("".to_string(), "b".to_string()), "b");
    assert_eq!(concatenate_strs_with_comma("a".to_string(), "b".to_string()), "a, b");
}

#[test]
fn list_joining_with_and() {
    assert_eq!(concatenate_list_with_and(&strings(&[])), "");
    assert_eq!(concatenate_list_with_and(&strings(&["Mondays"])), "Mondays");
    assert_eq!(concatenate_list_with_and(&strings(&["a", "b"])), "a and b");
    assert_eq!(concatenate_list_with_and(&strings(&["a", "b", "c", "d"])), "a, b, c and d");
}

#[test]
fn whitespace_split() {
    assert_eq!(split_whitespace("  ls -la\t/tmp \n"), strings(&["ls", "-la", "/tmp"]));
    assert_eq!(split_whitespace("   "), strings(&[]));
    assert_eq!(split_whitespace("a\u{3000}b"), strings(&["a", "b"]));
}

#[test]
fn json_top_level() {
    match parse_json("{\"b\": [1, 2], \"a\": {\"x\": 1}}") {
        Some(JsonValue::Object(m)) => {
            assert_eq!(m, vec![("a".to_string(), "{\"x\":1}".to_string()), ("b".to_string(), "[1,2]".to_string())]);
        }
        _ => panic!("expected an object"),
    }
    assert!(parse_json("not json").is_none());
    assert!(parse_object("[1]").is_empty());
    match parse_json("18446744073709551615") {
        Some(JsonValue::Number(n)) => assert_eq!(n, None),
        _ => panic!("expected a number"),
    }
    assert_eq!(quote_json_string("a\"b"), "\"a\\\"b\"");
    let obj = write_json_object(&vec![
        ("z".to_string(), "1".to_string()),
        ("a".to_string(), "oops".to_string()),
    ]);
    assert_eq!(obj, "{\"a\":null,\"z\":1}");
}

fn trigger(t: i64, details: &str) -> AutomationTrigger {
    AutomationTrigger { id: 1, trig_type: t, details: details.to_string() }
}

#[test]
fn repeat_every_summary() {
    let t = trigger(
        T_REPEAT_EVERY,
        "{\"frequency\":{\"hour\":1,\"minute\":30,\"second\":0},\"start-date\":{\"year\":2026,\"month\":3,\"day\":5,\"hour\":9,\"minute\":0,\"second\":7}}",
    );
    assert_eq!(
        trigger_summary::summarise(&t),
        "Repeat every 1 hour, 30 minutes, 0 seconds, starting on 05/03/2026 at 09:00:07"
    );
    let t = trigger(T_REPEAT_EVERY, "{\"frequency\":{\"year\":2,\"day\":3},\"start-date\":{\"year\":2026}}");
    assert_eq!(
        trigger_summary::summarise(&t),
        "Repeat every 2 years, starting on [invalid date] at [invalid time]"
    );
    let t = trigger(T_REPEAT_EVERY, "{}");
    assert_eq!(trigger_summary::summarise(&t), "Repeat every [invalid frequency], starting on  at ");
    let t = trigger(T_REPEAT_EVERY, "{\"frequency\":{\"month\":\"x\"}}");
    assert_eq!(trigger_summary::summarise(&t), "Repeat every -1 months, starting on  at ");
}

#[test]
fn certain_days_summary() {
    let t = trigger(
        T_CERTAIN_DAYS,
        "{\"days-active\":{\"1\":1,\"2\":1,\"3\":1,\"4\":1,\"5\":1,\"6\":0,\"7\":0},\"time\":{\"hour\":8,\"minute\":5,\"second\":0}}",
    );
    assert_eq!(trigger_summary::summarise(&t), "Every day, except Saturdays and Sundays, at 08:05:00");
    let t = trigger(T_CERTAIN_DAYS, "{\"days-active\":{\"1\":1,\"3\":1},\"time\":{\"hour\":23}}");
    assert_eq!(trigger_summary::summarise(&t), "On Mondays and Wednesdays, at [invalid time]");
    let t = trigger(
        T_CERTAIN_DAYS,
        "{\"days-active\":{\"1\":1,\"2\":1,\"3\":1,\"4\":1,\"5\":1,\"6\":1,\"7\":1},\"time\":{\"hour\":0,\"minute\":0,\"second\":0}}",
    );
    assert_eq!(trigger_summary::summarise(&t), "Every day, at 00:00:00");
    assert_eq!(trigger_summary::summarise(&trigger(5, "{}")), "");
}

#[test]
fn time_unit_strings() {
    assert_eq!(trigger_summary::get_time_unit_as_str("1", "day"), "1 day");
    assert_eq!(trigger_summary::get_time_unit_as_str("3", "hour"), "3 hours");
    assert_eq!(trigger_summary::get_time_unit_as_str("1.5", "minute"), "-1 minutes");
}

fn action(t: i64, details: &str) -> AutomationAction {
    AutomationAction { id: 3, action_type: t, details: details.to_string() }
}

#[test]
fn action_summaries() {
    assert_eq!(
        action_summary::summarise(&action(A_COMMAND, "{\"command\":{\"string\":\"echo hi\"}}")),
        "Run command: <span alpha='60%'>echo hi</span>"
    );
    assert_eq!(
        action_summary::summarise(&action(A_NOTIFICATION, "{\"contents\":{\"string\":\"Hello\"}}")),
        "Send notification: <span alpha='60%'>\"Hello\"</span>"
    );
    assert_eq!(
        action_summary::summarise(&action(A_COMMAND, "{}")),
        "Run command: <span alpha='60%'>[invalid string]</span>"
    );
    assert_eq!(
        action_summary::summarise(&action(A_COMMAND, "{\"command\":{\"string\":5}}")),
        "Run command: <span alpha='60%'></span>"
    );
    assert_eq!(action_summary::summarise(&action(7, "{}")), "");
}

#[test]
fn strings_are_quoted_with_escapes() {
    assert_eq!(quote_json_string("plain é"), "\"plain é\"");
    assert_eq!(quote_json_string("a\u{1}\n\"\\\u{1f}\u{7f}"), "\"a\\u0001\\n\\\"\\\\\\u001f\u{7f}\"");
    assert_eq!(quote_json_string("\u{8}\t\u{c}\r"), "\"\\b\\t\\f\\r\"");
}
