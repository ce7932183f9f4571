use sigroute::common::{
    action_get_option_details, action_to_icon_name, action_to_name, trigger_get_option_details,
    trigger_to_icon_name, trigger_to_name, OptionType, A_COMMAND, A_NOTIFICATION, T_CERTAIN_DAYS,
    T_REPEAT_EVERY, T_USER_LOGIN,
};
use sigroute::delete_menu::DeleteType;
use sigroute::message::UIEvent;
use sigroute::db::{check_data_dir, check_tables, no_home_error, DBError, DirCreation};

#[test]
fn trigger_names_and_icons() {
    assert_eq!(trigger_to_name(T_REPEAT_EVERY), "Repeat every");
    assert_eq!(trigger_to_name(T_CERTAIN_DAYS), "Repeat on certain days");
    assert_eq!(trigger_to_name(T_USER_LOGIN), "User Login");
    assert_eq!(trigger_to_name(42), "Unknown");
    assert_eq!(trigger_to_icon_name(T_CERTAIN_DAYS), "x-office-calendar-symbolic");
    assert_eq!(trigger_to_icon_name(0), "value-decrease-symbolic");
}

#[test]
fn action_names_and_icons() {
    assert_eq!(action_to_name(A_COMMAND), "Run command");
    assert_eq!(action_to_name(A_NOTIFICATION), "Send notification");
    assert_eq!(action_to_name(-3), "Unknown");
    assert_eq!(action_to_icon_name(A_NOTIFICATION), "preferences-system-notifications-symbolic");
}

#[test]
fn trigger_options() {
    let repeat = trigger_get_option_details(T_REPEAT_EVERY);
    assert_eq!(repeat.len(), 2);
    assert_eq!(repeat[0].opt_type, OptionType::Frequency);
    assert_eq!(repeat[0].json_name, "frequency");
    assert_eq!(repeat[1].opt_type, OptionType::DateTime);
    assert_eq!(repeat[1].json_name, "start-date");
    assert!(repeat[1].mandatory);
    let days = trigger_get_option_details(T_CERTAIN_DAYS);
    assert_eq!(days[0].title, "Days of the week");
    assert_eq!(days[1].json_name, "time");
    let unknown = trigger_get_option_details(9);
    assert_eq!(unknown.len(), 1);
    assert_eq!(unknown[0].opt_type, OptionType::Unknown);
    assert_eq!(unknown[0].title, "Unknown Option");
    assert!(!unknown[0].mandatory);
}

#[test]
fn action_options() {
    let cmd = action_get_option_details(A_COMMAND);
    assert_eq!(cmd.len(), 1);
    assert_eq!(cmd[0].opt_type, OptionType::String);
    assert_eq!(cmd[0].json_name, "command");
    let notif = action_get_option_details(A_NOTIFICATION);
    assert_eq!(notif[0].title, "Notification Contents");
    assert_eq!(notif[0].json_name, "contents");
    assert_eq!(action_get_option_details(0)[0].json_name, "unknown");
}

#[test]
fn delete_types() {
    assert_eq!(DeleteType::Automation.to_string(), "Automation");
    assert!(!DeleteType::Automation.requires_id());
    assert!(DeleteType::Trigger.requires_id());
    assert!(DeleteType::Action.requires_id());
    assert_eq!(DeleteType::Trigger.get_deletion_event(Some(4)), UIEvent::DeletedTrigger(4));
    assert_eq!(DeleteType::Action.get_deletion_event(Some(7)), UIEvent::DeletedAction(7));
    assert_eq!(DeleteType::Automation.get_deletion_event(None), UIEvent::DeletedAutomation());
    assert_eq!(DeleteType::Action.heading(), "Delete Action");
    assert_eq!(DeleteType::Trigger.body(), "Are you sure you want to delete this trigger?");
}

#[test]
fn database_setup_decisions() {
    assert_eq!(check_data_dir(DirCreation::AlreadyExists), Ok(()));
    assert_eq!(check_data_dir(DirCreation::Created), Ok(()));
    assert_eq!(
        check_data_dir(DirCreation::Failed),
        Err(DBError::InitialisationError("Error creating the data directory"))
    );
    assert_eq!(check_tables(false), Err(DBError::InitialisationError("Error initialising the database")));
    assert_eq!(no_home_error(), DBError::InitialisationError("Could not find home directory"));
}
