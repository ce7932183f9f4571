use sigroute::app_model::AppModel;
use sigroute::common::{Automation, AutomationAction, AutomationTrigger, MoveDirection, A_COMMAND, T_REPEAT_EVERY};
use sigroute::field_menu::{dialog_title, option_row_title, submit_label, type_names, FieldAction, FieldEditDetails, FieldMenu, FieldType};
use sigroute::common::trigger_get_option_details;
use sigroute::main_controller::{ControllerAction, MainController, Reply, Request};
use sigroute::message::{ModelUpdate, UIEvent};
use sigroute::pickers::{DateTimePicker, DaysPicker, FrequencyPicker, LocalNow, Picker, TimePicker};
use sigroute::views::{action_rows, selected_row, sidebar_item_markup, title_markup, trigger_rows};

fn now() -> LocalNow {
    LocalNow { year: 2026, month: 1, day: 2, hour: 3, minute: 4, second: 5 }
}

#[test]
fn adding_a_trigger_with_the_menu() {
    let mut menu = FieldMenu::new(FieldType::Trigger, FieldAction::Add, None, &now());
    assert_eq!(menu.selected_type, 1);
    assert_eq!(menu.mandatory_options_left, 2);
    assert!(!menu.update_submit_button());
    let freq = Picker::Frequency(FrequencyPicker::new("{\"day\":3}"));
    menu.submit_picker(0, &freq);
    assert_eq!(menu.mandatory_options_left, 1);
    assert_eq!(menu.summaries[0], "3d");
    let empty = Picker::Frequency(FrequencyPicker::new("{}"));
    menu.submit_picker(0, &empty);
    assert_eq!(menu.mandatory_options_left, 2);
    assert_eq!(menu.json_options[0], "");
    menu.submit_picker(0, &freq);
    menu.submit_picker(1, &Picker::Time(TimePicker::new("{}", 1, 2, 3)));
    assert!(menu.update_submit_button());
    assert_eq!(
        menu.options_json(),
        "{\"frequency\":{\"day\":3},\"start-date\":{\"hour\":1,\"minute\":2,\"second\":3}}"
    );
    assert_eq!(
        menu.submit_event(),
        UIEvent::AddedTrigger(1, "{\"frequency\":{\"day\":3},\"start-date\":{\"hour\":1,\"minute\":2,\"second\":3}}".to_string())
    );
    menu.select_type(1, &now());
    assert_eq!(menu.selected_type, 2);
    assert_eq!(menu.mandatory_options_left, 2);
    menu.submit_picker(0, &Picker::Days(DaysPicker::new("{\"1\":1}")));
    assert_eq!(menu.summaries[0], "Mon");
}

#[test]
fn editing_an_action_with_the_menu() {
    let field = FieldEditDetails { id: 12, field_type: A_COMMAND, details: "{\"command\":{\"string\":\"ls\"}}".to_string() };
    let menu = FieldMenu::new(FieldType::Action, FieldAction::Edit, Some(field), &now());
    assert_eq!(menu.selected_type, A_COMMAND);
    assert_eq!(menu.mandatory_options_left, 0);
    assert_eq!(menu.summaries[0], "'ls'");
    assert_eq!(menu.json_options[0], "{\"string\":\"ls\"}");
    assert!(menu.update_submit_button());
    assert_eq!(menu.submit_event(), UIEvent::UpdatedAction(12, "{\"command\":{\"string\":\"ls\"}}".to_string()));
    let field = FieldEditDetails { id: 3, field_type: T_REPEAT_EVERY, details: "{\"frequency\":{}}".to_string() };
    let menu = FieldMenu::new(FieldType::Trigger, FieldAction::Edit, Some(field), &now());
    assert_eq!(menu.mandatory_options_left, 2);
    assert_eq!(menu.summaries[0], "");
    assert_eq!(menu.summaries[1], "");
}

#[test]
fn menu_texts() {
    assert_eq!(dialog_title(FieldType::Trigger, FieldAction::Edit), "Edit Trigger");
    assert_eq!(dialog_title(FieldType::Action, FieldAction::Add), "Add Action");
    assert_eq!(submit_label(FieldAction::Edit), "Save Changes");
    assert_eq!(type_names(FieldType::Trigger), vec!["Repeat every".to_string(), "Repeat on certain days".to_string()]);
    assert_eq!(type_names(FieldType::Action), vec!["Run command".to_string(), "Send notification".to_string()]);
    let opts = trigger_get_option_details(9);
    assert_eq!(option_row_title(&opts[0]), "Unknown Option (optional)");
}

fn automation(id: i64, name: &str, active: bool) -> Automation {
    Automation { id, name: name.to_string(), active }
}

#[test]
fn automation_index_follows_the_id() {
    let mut m = AppModel::new();
    m.update_automations_list(vec![automation(4, "a", true), automation(9, "b", true), automation(9, "c", false)]);
    m.set_current_automation_id(9);
    m.update_automation_index();
    assert_eq!(m.get_current_automation_index(), 1);
    m.set_current_automation_id(5);
    m.update_automation_index();
    assert_eq!(m.get_current_automation_index(), -1);
    m.set_current_automation_index(0);
    assert_eq!(m.current_automation(), Some(automation(4, "a", true)));
    m.delete_automation(true);
    assert_eq!((m.automation_id, m.current_index), (-1, -1));
}

fn drive(c: &mut MainController, replies: &mut Vec<Reply>) -> Vec<String> {
    let mut log = Vec::new();
    loop {
        match c.advance() {
            ControllerAction::Call(r) => {
                log.push(match r {
                    Request::GetAutomations => "get automations".to_string(),
                    Request::GetAutomationTriggers(id) => format!("get triggers {}", id),
                    Request::GetAutomationActions(id) => format!("get actions {}", id),
                    Request::AddAutomation(n) => format!("add {}", n),
                    Request::UpdateAutomation(a) => format!("update {} {} {}", a.id, a.name, a.active),
                    Request::DeleteAutomation(id) => format!("delete {}", id),
                    Request::RunAutomation(id, manual) => format!("run {} {}", id, manual),
                    Request::MoveAction(id, d) => format!("move {} {}", id, d == MoveDirection::Up),
                    _ => "other".to_string(),
                });
                let reply = replies.remove(0);
                if !c.receive(reply) {
                    log.push("exit".to_string());
                    return log;
                }
            }
            ControllerAction::Notify(ModelUpdate::AutomationListUpdate) => log.push("list".to_string()),
            ControllerAction::Notify(ModelUpdate::AutomationUpdate) => log.push("automation".to_string()),
            ControllerAction::Continue => {}
            ControllerAction::Exit => {
                log.push("exit".to_string());
                return log;
            }
            ControllerAction::Idle => return log,
        }
    }
}

#[test]
fn controller_adds_and_selects_an_automation() {
    let mut c = MainController::new();
    let mut replies = vec![Reply::Automations(vec![automation(1, "One", true)])];
    assert_eq!(drive(&mut c, &mut replies), vec!["get automations", "list"]);
    assert!(c.is_idle());
    c.handle(UIEvent::AddedAutomation);
    let mut replies = vec![
        Reply::NewId(2),
        Reply::Automations(vec![automation(1, "One", true), automation(2, "New Automation", true)]),
        Reply::Triggers(vec![AutomationTrigger { id: 5, trig_type: 1, details: "{}".to_string() }]),
        Reply::Actions(vec![]),
    ];
    assert_eq!(
        drive(&mut c, &mut replies),
        vec!["add New Automation", "get automations", "get triggers 2", "get actions 2", "list", "automation"]
    );
    assert_eq!(c.app_model.current_index, 1);
    assert_eq!(c.app_model.triggers.len(), 1);
}

#[test]
fn controller_renames_and_toggles() {
    let mut c = MainController::new();
    let mut replies = vec![Reply::Automations(vec![automation(1, "One", true), automation(3, "Three", true)])];
    drive(&mut c, &mut replies);
    c.handle(UIEvent::ChangedAutomation(3));
    assert_eq!((c.app_model.automation_id, c.app_model.current_index), (3, 1));
    let mut replies = vec![Reply::Triggers(vec![]), Reply::Actions(vec![])];
    assert_eq!(drive(&mut c, &mut replies), vec!["get triggers 3", "get actions 3", "automation"]);
    c.handle(UIEvent::UpdatedAutomationName("Renamed".to_string()));
    let mut replies = vec![Reply::Done, Reply::Automations(vec![automation(1, "One", true), automation(3, "Renamed", true)])];
    assert_eq!(drive(&mut c, &mut replies), vec!["update 3 Renamed true", "get automations", "list", "automation"]);
    c.handle(UIEvent::UpdatedAutomationActivity(true));
    assert!(c.is_idle());
    c.handle(UIEvent::UpdatedAutomationActivity(false));
    let mut replies = vec![Reply::Done, Reply::Automations(vec![])];
    assert_eq!(drive(&mut c, &mut replies), vec!["update 3 Renamed false", "get automations", "list", "automation"]);
}

#[test]
fn controller_gives_up_on_bad_input() {
    let mut c = MainController::new();
    let mut replies = vec![Reply::Failed];
    assert_eq!(drive(&mut c, &mut replies), vec!["get automations", "exit"]);
    let mut c = MainController::new();
    let mut replies = vec![Reply::Automations(vec![])];
    drive(&mut c, &mut replies);
    c.handle(UIEvent::ChangedAutomation(0));
    assert_eq!(drive(&mut c, &mut vec![]), vec!["exit"]);
    let mut c = MainController::new();
    drive(&mut c, &mut vec![Reply::Automations(vec![automation(8, "E", true)])]);
    c.handle(UIEvent::ChangedAutomation(0));
    assert_eq!(drive(&mut c, &mut vec![]), vec!["exit"]);
    let mut c = MainController::new();
    drive(&mut c, &mut vec![Reply::Automations(vec![automation(8, "E", true)])]);
    c.handle(UIEvent::ChangedAutomation(8));
    assert_eq!((c.app_model.automation_id, c.app_model.current_index), (8, 0));
    drive(&mut c, &mut vec![Reply::Triggers(vec![]), Reply::Actions(vec![])]);
    c.handle(UIEvent::DeletedAutomation());
    let log = drive(&mut c, &mut vec![Reply::Done, Reply::Automations(vec![])]);
    assert_eq!(log, vec!["delete 8", "get automations", "list", "automation"]);
    assert_eq!((c.app_model.automation_id, c.app_model.current_index), (-1, -1));
    c.handle(UIEvent::MoveAction(4, MoveDirection::Up));
    assert_eq!(drive(&mut c, &mut vec![Reply::Done, Reply::Actions(vec![])]), vec!["move 4 true", "get actions -1", "automation"]);
    c.handle(UIEvent::RanAutomation());
    assert_eq!(drive(&mut c, &mut vec![Reply::Failed]), vec!["run -1 true"]);
}

#[test]
fn view_rows() {
    assert_eq!(sidebar_item_markup("Backup", true), None);
    assert_eq!(sidebar_item_markup("Backup", false), Some("<span foreground=\"gray\">Backup</span>".to_string()));
    assert_eq!(title_markup("X"), "<b>X</b>");
    let rows = action_rows(&vec![
        AutomationAction { id: 1, action_type: A_COMMAND, details: "{\"command\":{\"string\":\"ls\"}}".to_string() },
        AutomationAction { id: 2, action_type: 2, details: "{}".to_string() },
    ]);
    assert_eq!(rows.len(), 2);
    assert_eq!(rows[0].title, "Run command: <span alpha='60%'>ls</span>");
    assert!(!rows[0].can_move_up && rows[0].can_move_down);
    assert!(rows[1].can_move_up && !rows[1].can_move_down);
    assert_eq!(rows[1].icon, "preferences-system-notifications-symbolic");
    let rows = trigger_rows(&vec![AutomationTrigger { id: 4, trig_type: 7, details: "".to_string() }]);
    assert_eq!(rows[0].title, "User Login");
    assert_eq!(rows[0].subtitle, "");
    assert_eq!(rows[0].icon, "avatar-default-symbolic");
    assert_eq!(selected_row(-1, 3), None);
    assert_eq!(selected_row(2, 3), Some(2));
    assert_eq!(selected_row(3, 3), None);
}

#[test]
fn editing_gives_back_what_adding_wrote() {
    let mut menu = FieldMenu::new(FieldType::Trigger, FieldAction::Add, None, &now());
    menu.select_type(1, &now());
    let mut days = DaysPicker::new("{}");
    days.days[2] = true;
    days.days[5] = true;
    menu.submit_picker(0, &Picker::Days(days));
    menu.submit_picker(1, &Picker::Time(TimePicker::new("{}", 7, 30, 0)));
    let written = menu.options_json();
    assert_eq!(
        written,
        "{\"days-active\":{\"1\":0,\"2\":0,\"3\":1,\"4\":0,\"5\":0,\"6\":1,\"7\":0},\"time\":{\"hour\":7,\"minute\":30,\"second\":0}}"
    );
    let field = FieldEditDetails { id: 4, field_type: menu.selected_type, details: written.clone() };
    let edit = FieldMenu::new(FieldType::Trigger, FieldAction::Edit, Some(field), &now());
    assert_eq!(edit.selected_type, 2);
    assert_eq!(edit.mandatory_options_left, 0);
    assert_eq!(edit.options_json(), written);
    assert_eq!(edit.summaries[0], "Wed, Sat");
}

#[test]
fn changing_automation_selects_by_id() {
    let mut c = MainController::new();
    drive(&mut c, &mut vec![Reply::Automations(vec![automation(5, "Five", true)])]);
    c.handle(UIEvent::ChangedAutomation(5));
    assert_eq!((c.app_model.automation_id, c.app_model.current_index), (5, 0));
    let log = drive(&mut c, &mut vec![Reply::Triggers(vec![]), Reply::Actions(vec![])]);
    assert_eq!(log, vec!["get triggers 5", "get actions 5", "automation"]);
    let model = AppModel {
        automation_id: -1,
        current_index: -1,
        automations: vec![automation(2, "A", true), automation(9, "B", false), automation(9, "C", true)],
        triggers: vec![],
        actions: vec![],
    };
    assert_eq!(model.index_of(9), 1);
    assert_eq!(model.index_of(4), -1);
}

#[test]
fn editing_a_repeating_trigger_gives_back_its_details() {
    let mut menu = FieldMenu::new(FieldType::Trigger, FieldAction::Add, None, &now());
    menu.submit_picker(0, &Picker::Frequency(FrequencyPicker::new("{\"hour\":2}")));
    let mut start = DateTimePicker::new("{}", 31, 1, 2024);
    start.set_time(6, 5, 4);
    menu.submit_picker(1, &Picker::DateTime(start));
    let written = menu.options_json();
    assert_eq!(
        written,
        "{\"frequency\":{\"hour\":2,\"minute\":0,\"second\":0},\"start-date\":{\"day\":31,\"hour\":6,\"minute\":5,\"month\":1,\"second\":4,\"year\":2024}}"
    );
    assert_eq!(menu.summaries[1], "31/01/2024 06:05:04");
    let field = FieldEditDetails { id: 7, field_type: 1, details: written.clone() };
    let edit = FieldMenu::new(FieldType::Trigger, FieldAction::Edit, Some(field), &now());
    assert_eq!(edit.mandatory_options_left, 0);
    assert_eq!(edit.options_json(), written);
    assert_eq!(edit.summaries[1], "31/01/2024 06:05:04");
}
