use sigroute::common::{AutomationAction, OptionType, A_COMMAND, A_NOTIFICATION};
use sigroute::pickers::{
    create_picker, days_in_month, FrequencyField, DateTimePicker, DaysPicker, FrequencyPicker, LocalNow, Picker,
    StringPicker, TimePicker,
};
use sigroute::runner::{manual_run_details, run_automation_actions, to_api_result, ActionEffect, ActionsRunner};
use sigroute::common::APIError;

fn action(t: i64, details: &str) -> AutomationAction {
    AutomationAction { id: 1, action_type: t, details: details.to_string() }
}

#[test]
fn runner_steps_through_actions() {
    let mut runner = ActionsRunner::new(vec![
        action(A_COMMAND, "{\"command\":{\"string\":\"  ls -la /tmp \"}}"),
        action(9, "{}"),
        action(A_NOTIFICATION, "{\"contents\":{\"string\":\"hello\"}}"),
    ]);
    assert!(runner.has_next());
    let (ok, effect) = runner.step();
    assert!(ok);
    match effect {
        ActionEffect::RunCommand { program, args } => {
            assert_eq!(program, "ls");
            assert_eq!(args, vec!["-la".to_string(), "/tmp".to_string()]);
        }
        _ => panic!("expected a command"),
    }
    let (ok, effect) = runner.step();
    assert!(!ok);
    assert!(matches!(effect, ActionEffect::Nothing));
    assert_eq!(runner.current, 2);
    let (ok, effect) = runner.step();
    assert!(ok);
    match effect {
        ActionEffect::Notify { title, contents } => {
            assert_eq!(title, "Notification");
            assert_eq!(contents, "hello");
        }
        _ => panic!("expected a notification"),
    }
    assert!(!runner.has_next());
    let (ok, effect) = runner.step();
    assert!(!ok);
    assert!(matches!(effect, ActionEffect::Nothing));
    assert_eq!(runner.current, 3);
}

#[test]
fn run_all_runs_past_failures() {
    let mut runner = ActionsRunner::new(vec![
        action(7, "{}"),
        action(A_COMMAND, "{\"command\":{\"string\":\"\"}}"),
        action(A_NOTIFICATION, "{\"contents\":{\"string\":\"\"}}"),
        action(A_COMMAND, "not json"),
    ]);
    let effects = runner.run_all();
    assert_eq!(effects.len(), 4);
    assert!(matches!(effects[0], ActionEffect::Nothing));
    match &effects[1] {
        ActionEffect::RunCommand { program, args } => {
            assert_eq!(program, "");
            assert!(args.is_empty());
        }
        _ => panic!("expected a command"),
    }
    assert!(matches!(effects[2], ActionEffect::Nothing));
    assert!(matches!(effects[3], ActionEffect::Nothing));
    assert_eq!(runner.current, 4);
    assert!(runner.run_all().is_empty());
}

#[test]
fn manual_runs_end_with_a_notification() {
    let actions = run_automation_actions(vec![action(A_COMMAND, "{}")], "Backup", true);
    assert_eq!(actions.len(), 2);
    assert_eq!(actions[1].id, -1);
    assert_eq!(actions[1].action_type, A_NOTIFICATION);
    assert_eq!(
        actions[1].details,
        "{\"contents\":{\"string\":\"Successfully manually ran automation \\\"Backup\\\"\"}}"
    );
    assert_eq!(manual_run_details("x"), "{\"contents\":{\"string\":\"Successfully manually ran automation \\\"x\\\"\"}}");
    let mut runner = ActionsRunner::new(actions);
    let effects = runner.run_all();
    match &effects[1] {
        ActionEffect::Notify { contents, .. } => {
            assert_eq!(contents, "Successfully manually ran automation \"Backup\"");
        }
        _ => panic!("expected a notification"),
    }
    assert_eq!(run_automation_actions(vec![], "Backup", false).len(), 0);
}

#[test]
fn api_results() {
    assert_eq!(to_api_result::<i64, String>(Ok(5)), Ok(5));
    assert_eq!(to_api_result::<i64, String>(Err("locked".to_string())), Err(APIError::DBAccessError));
}

#[test]
fn frequency_picker() {
    let p = FrequencyPicker::new("{\"hour\":1,\"minute\":30}");
    assert_eq!((p.year, p.hour, p.minute, p.second), (0, 1, 30, 0));
    assert!(p.is_now_completed());
    assert_eq!(p.get_json(), "{\"hour\":1,\"minute\":30,\"second\":0}");
    assert_eq!(p.get_summary_text(), "1h, 30m");
    let p = FrequencyPicker::new("{\"month\":2,\"hour\":5}");
    assert_eq!((p.month, p.hour), (2, 0));
    assert_eq!(p.get_json(), "{\"month\":2}");
    assert_eq!(p.get_summary_text(), "2mo");
    let p = FrequencyPicker::new("{\"year\":999999}");
    assert_eq!(p.year, 100000);
    let p = FrequencyPicker::new("{\"day\":1.5}");
    assert!(!p.is_now_completed());
    assert_eq!(p.get_json(), "{}");
    assert_eq!(p.get_summary_text(), "");
}

#[test]
fn days_picker() {
    let p = DaysPicker::new("{\"2\":1,\"7\":1,\"3\":0}");
    assert_eq!(p.days, [false, true, false, false, false, false, true]);
    assert_eq!(p.get_json(), "{\"1\":0,\"2\":1,\"3\":0,\"4\":0,\"5\":0,\"6\":0,\"7\":1}");
    assert_eq!(p.get_summary_text(), "Tue, Sun");
    assert!(p.is_now_completed());
    let p = DaysPicker::new("{\"2\":\"yes\",\"7\":1}");
    assert_eq!(p.days, [false; 7]);
}

#[test]
fn time_picker() {
    let p = TimePicker::new("{\"hour\":7,\"second\":61}", 13, 14, 15);
    assert_eq!((p.hour, p.minute, p.second), (7, 14, 59));
    assert_eq!(p.get_json(), "{\"hour\":7,\"minute\":14,\"second\":59}");
    assert_eq!(p.get_summary_text(), "07:14:59");
}

#[test]
fn string_picker() {
    let p = StringPicker::new("{\"string\":\"say \\\"hi\\\"\"}");
    assert_eq!(p.text, "say \"hi\"");
    assert_eq!(p.get_json(), "{\"string\":\"say \\\"hi\\\"\"}");
    assert_eq!(p.get_summary_text(), "'say \"hi\"'");
    assert_eq!(StringPicker::new("{\"string\":1}").text, "");
}

#[test]
fn date_time_picker() {
    let mut p = DateTimePicker::new("{}", 31, 1, 2024);
    assert_eq!(p.get_summary_text(), "31/01/2024 00:00:00");
    p.set_month(2);
    assert_eq!(p.day, 29);
    p.set_year(2023);
    assert_eq!(p.day, 28);
    p.set_time(9, 75, -3);
    assert_eq!(p.get_summary_text(), "28/02/2023 09:59:00");
    assert_eq!(
        p.get_json(),
        "{\"day\":28,\"hour\":9,\"minute\":59,\"month\":2,\"second\":0,\"year\":2023}"
    );
    let back = DateTimePicker::new(&p.get_json(), 1, 1, 2030);
    assert_eq!((back.day, back.month, back.year, back.hour, back.minute, back.second), (28, 2, 2023, 9, 59, 0));
    assert_eq!(back.day_max, 31);
    let mut q = DateTimePicker::new("{\"day\":31,\"month\":4,\"hour\":30}", 5, 6, 2027);
    assert_eq!(q, DateTimePicker { day: 31, month: 4, year: 2027, hour: 23, minute: 0, second: 0, day_max: 31 });
    // The day field takes 1 to 31 until the month or the year changes.
    q.set_day(40);
    assert_eq!(q.day, 31);
    q.set_year(2028);
    assert_eq!((q.day, q.day_max), (30, 30));
    q.set_day(31);
    assert_eq!(q.day, 30);
    assert_eq!(days_in_month(2, 2000), 29);
    assert_eq!(days_in_month(2, 2100), 28);
    assert_eq!(days_in_month(4, 2023), 30);
    assert_eq!(days_in_month(12, 2023), 31);
}

#[test]
fn pickers_by_kind() {
    let now = LocalNow { year: 2026, month: 6, day: 15, hour: 10, minute: 20, second: 30 };
    let p = create_picker(OptionType::Time, "{}", &now);
    assert_eq!(p.get_summary_text(), "10:20:30");
    assert!(matches!(p, Picker::Time(_)));
    let p = create_picker(OptionType::Unknown, "{\"string\":\"x\"}", &now);
    assert!(matches!(p, Picker::Text(_)));
    assert_eq!(p.get_json(), "{\"string\":\"x\"}");
    let p = create_picker(OptionType::DateTime, "{}", &now);
    assert_eq!(p.get_summary_text(), "15/06/2026 00:00:00");
    let p = create_picker(OptionType::DateTime, "{\"year\":2031,\"minute\":7}", &now);
    assert_eq!(p.get_summary_text(), "15/06/2031 00:07:00");
    assert_eq!(create_picker(OptionType::Frequency, "{}", &now).is_now_completed(), false);
}

#[test]
fn pickers_read_back_their_json() {
    let t = TimePicker { hour: 23, minute: 0, second: 9 };
    assert_eq!(TimePicker::new(&t.get_json(), 1, 1, 1), t);
    let d = DaysPicker { days: [true, false, true, false, false, true, true] };
    assert_eq!(DaysPicker::new(&d.get_json()).days, d.days);
    let dt = DateTimePicker { day: 29, month: 2, year: 2024, hour: 0, minute: 59, second: 1, day_max: 29 };
    let back = DateTimePicker::new(&dt.get_json(), 1, 1, 2000);
    assert_eq!((back.day, back.month, back.year, back.hour, back.minute, back.second), (29, 2, 2024, 0, 59, 1));
    for f in [
        FrequencyPicker { year: 0, month: 0, day: 0, hour: 0, minute: 5, second: 1 },
        FrequencyPicker { year: 0, month: 0, day: 12, hour: 0, minute: 0, second: 0 },
        FrequencyPicker { year: 0, month: 7, day: 0, hour: 0, minute: 0, second: 0 },
        FrequencyPicker { year: 100000, month: 0, day: 0, hour: 0, minute: 0, second: 0 },
        FrequencyPicker { year: 0, month: 0, day: 0, hour: 0, minute: 0, second: 0 },
    ] {
        assert_eq!(FrequencyPicker::new(&f.get_json()), f);
    }
    let s = StringPicker { text: "tab\there \"quoted\" \\ é".to_string() };
    assert_eq!(StringPicker::new(&s.get_json()).text, s.text);
}

#[test]
fn frequency_fields_switch_each_other() {
    let fields = [
        FrequencyField::Year,
        FrequencyField::Month,
        FrequencyField::Day,
        FrequencyField::Hour,
        FrequencyField::Minute,
        FrequencyField::Second,
    ];
    let mut p = FrequencyPicker::new("{}");
    assert!(fields.iter().all(|f| p.row_enabled(*f)));
    p.set_field(FrequencyField::Hour, 5);
    p.set_field(FrequencyField::Minute, 1);
    p.set_field(FrequencyField::Minute, 0);
    assert!(!p.row_enabled(FrequencyField::Year));
    assert!(!p.row_enabled(FrequencyField::Month));
    assert!(!p.row_enabled(FrequencyField::Day));
    assert!(p.row_enabled(FrequencyField::Minute));
    p.set_field(FrequencyField::Hour, 0);
    assert!(fields.iter().all(|f| p.row_enabled(*f)));
    p.set_field(FrequencyField::Month, 3);
    let enabled: Vec<bool> = fields.iter().map(|f| p.row_enabled(*f)).collect();
    assert_eq!(enabled, vec![false, true, false, false, false, false]);
    p.set_field(FrequencyField::Month, 200000);
    assert_eq!(p.month, 100000);
    assert_eq!(p.get_json(), "{\"month\":100000}");
}

#[test]
fn steps_that_run_nothing_report_failure() {
    let mut runner = ActionsRunner::new(vec![
        action(A_COMMAND, "{}"),
        action(A_NOTIFICATION, "{\"contents\":{\"string\":\"\"}}"),
        action(A_COMMAND, "{\"command\":{\"string\":\"true\"}}"),
    ]);
    let (ok, effect) = runner.step();
    assert!(!ok);
    assert!(matches!(effect, ActionEffect::Nothing));
    let (ok, _) = runner.step();
    assert!(!ok);
    let (ok, effect) = runner.step();
    assert!(ok);
    assert!(matches!(effect, ActionEffect::RunCommand { .. }));
    assert_eq!(runner.current, 3);
}
