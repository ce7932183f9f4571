//! Types and tables shared by the daemon and the GUI: trigger and action
//! kinds, their display names and icons, and the options each kind takes.

use vstd::prelude::*;

verus! {

/* === API Errors === */

/// The error the daemon answers with when a request cannot be served.
#[derive(Debug, Clone, Copy, PartialEq, Eq, Structural)]
pub enum APIError {
    DBAccessError,
}

/* === Triggers === */

pub const T_REPEAT_EVERY: i64 = 1;
pub const T_CERTAIN_DAYS: i64 = 2;
pub const T_NETWORK_CONNECTED_TO: i64 = 3;
pub const T_NETWORK_DISCONNECTED_FROM: i64 = 4;
pub const T_POWER_CONNECTED: i64 = 5;
pub const T_POWER_DISCONNECTED: i64 = 6;
pub const T_USER_LOGIN: i64 = 7;

/// The highest trigger kind that can be chosen when creating a trigger.
pub const TRIGGER_MAX: i64 = 2;

/// The display name of each trigger kind.
pub open spec fn trigger_name_spec(x: i64) -> Seq<char> {
    if x == T_REPEAT_EVERY {
        "Repeat every"@
    } else if x == T_CERTAIN_DAYS {
        "Repeat on certain days"@
    } else if x == T_NETWORK_CONNECTED_TO {
        "Network Connected"@
    } else if x == T_NETWORK_DISCONNECTED_FROM {
        "Network Disconnected"@
    } else if x == T_POWER_CONNECTED {
        "Power Connected"@
    } else if x == T_POWER_DISCONNECTED {
        "Power Disconnected"@
    } else if x == T_USER_LOGIN {
        "User Login"@
    } else {
        "Unknown"@
    }
}

/// Returns the display name of a trigger kind ("Unknown" for any other number).
pub fn trigger_to_name(x: i64) -> (res: String)
    ensures
        res@ == trigger_name_spec(x),
{
    if x == T_REPEAT_EVERY {
        String::from_str("Repeat every")
    } else if x == T_CERTAIN_DAYS {
        String::from_str("Repeat on certain days")
    } else if x == T_NETWORK_CONNECTED_TO {
        String::from_str("Network Connected")
    } else if x == T_NETWORK_DISCONNECTED_FROM {
        String::from_str("Network Disconnected")
    } else if x == T_POWER_CONNECTED {
        String::from_str("Power Connected")
    } else if x == T_POWER_DISCONNECTED {
        String::from_str("Power Disconnected")
    } else if x == T_USER_LOGIN {
        String::from_str("User Login")
    } else {
        String::from_str("Unknown")
    }
}

/// The icon shown beside each trigger kind.
pub open spec fn trigger_icon_spec(x: i64) -> Seq<char> {
    if x == T_REPEAT_EVERY {
        "preferences-system-time-symbolic"@
    } else if x == T_CERTAIN_DAYS {
        "x-office-calendar-symbolic"@
    } else if x == T_NETWORK_CONNECTED_TO {
        "network-workgroup-symbolic"@
    } else if x == T_NETWORK_DISCONNECTED_FROM {
        "network-wired-disconnected-symbolic"@
    } else if x == T_POWER_CONNECTED {
        "ac-adapter-symbolic"@
    } else if x == T_POWER_DISCONNECTED {
        "battery-missing-symbolic"@
    } else if x == T_USER_LOGIN {
        "avatar-default-symbolic"@
    } else {
        "value-decrease-symbolic"@
    }
}

/// Returns the icon name of a trigger kind.
pub fn trigger_to_icon_name(x: i64) -> (res: String)
    ensures
        res@ == trigger_icon_spec(x),
{
    if x == T_REPEAT_EVERY {
        String::from_str("preferences-system-time-symbolic")
    } else if x == T_CERTAIN_DAYS {
        String::from_str("x-office-calendar-symbolic")
    } else if x == T_NETWORK_CONNECTED_TO {
        String::from_str("network-workgroup-symbolic")
    } else if x == T_NETWORK_DISCONNECTED_FROM {
        String::from_str("network-wired-disconnected-symbolic")
    } else if x == T_POWER_CONNECTED {
        String::from_str("ac-adapter-symbolic")
    } else if x == T_POWER_DISCONNECTED {
        String::from_str("battery-missing-symbolic")
    } else if x == T_USER_LOGIN {
        String::from_str("avatar-default-symbolic")
    } else {
        String::from_str("value-decrease-symbolic")
    }
}

/// The kind of picker an option is edited with.
#[derive(Debug, Clone, Copy, PartialEq, Eq, Structural)]
pub enum OptionType {
    DateTime,
    Frequency,
    Days,
    Time,
    String,
    Unknown,
}

/// Describes one option of a trigger or action kind.
pub struct OptionDetails {
    pub opt_type: OptionType,
    pub title: String,
    pub subtitle: String,
    pub mandatory: bool,
    pub json_name: String,
}

/// What an `OptionDetails` says, with its strings as character sequences.
pub struct OptionDetailsView {
    pub opt_type: OptionType,
    pub title: Seq<char>,
    pub subtitle: Seq<char>,
    pub mandatory: bool,
    pub json_name: Seq<char>,
}

impl View for OptionDetails {
    type V = OptionDetailsView;

    open spec fn view(&self) -> OptionDetailsView {
        OptionDetailsView {
            opt_type: self.opt_type,
            title: self.title@,
            subtitle: self.subtitle@,
            mandatory: self.mandatory,
            json_name: self.json_name@,
        }
    }
}

/// The views of a list of option descriptions.
pub open spec fn option_views(v: Seq<OptionDetails>) -> Seq<OptionDetailsView> {
    v.map_values(|d: OptionDetails| d@)
}

pub open spec fn option_spec(
    opt_type: OptionType,
    title: Seq<char>,
    subtitle: Seq<char>,
    mandatory: bool,
    json_name: Seq<char>,
) -> OptionDetailsView {
    OptionDetailsView { opt_type, title, subtitle, mandatory, json_name }
}

/// The single option listed for a kind that is not known.
pub open spec fn unknown_option_spec() -> OptionDetailsView {
    option_spec(OptionType::Unknown, "Unknown Option"@, ""@, false, "unknown"@)
}

/// The options each trigger kind takes, in the order they are shown.
pub open spec fn trigger_options_spec(x: i64) -> Seq<OptionDetailsView> {
    if x == T_REPEAT_EVERY {
        seq![
            option_spec(OptionType::Frequency, "Frequency"@,
                "Click to edit how often it triggers"@, true, "frequency"@),
            option_spec(OptionType::DateTime, "Starting at"@,
                "Click to edit the start date and time"@, true, "start-date"@),
        ]
    } else if x == T_CERTAIN_DAYS {
        seq![
            option_spec(OptionType::Days, "Days of the week"@,
                "Click to edit the days of the week this option triggers on"@, true, "days-active"@),
            option_spec(OptionType::Time, "Trigger at"@,
                "Click to edit the time of day the option will trigger at"@, true, "time"@),
        ]
    } else {
        seq![unknown_option_spec()]
    }
}

fn make_option(
    opt_type: OptionType,
    title: &str,
    subtitle: &str,
    mandatory: bool,
    json_name: &str,
) -> (res: OptionDetails)
    ensures
        res@ == option_spec(opt_type, title@, subtitle@, mandatory, json_name@),
{
    OptionDetails {
        opt_type,
        title: String::from_str(title),
        subtitle: String::from_str(subtitle),
        mandatory,
        json_name: String::from_str(json_name),
    }
}

fn unknown_options() -> (res: Vec<OptionDetails>)
    ensures
        option_views(res@) == seq![unknown_option_spec()],
{
    let mut v: Vec<OptionDetails> = Vec::new();
    v.push(make_option(OptionType::Unknown, "Unknown Option", "", false, "unknown"));
    assert(option_views(v@) =~= seq![unknown_option_spec()]);
    v
}

/// Returns the options that a trigger of kind `x` takes.
pub fn trigger_get_option_details(x: i64) -> (res: Vec<OptionDetails>)
    ensures
        option_views(res@) == trigger_options_spec(x),
{
    if x == T_REPEAT_EVERY {
        let mut v: Vec<OptionDetails> = Vec::new();
        v.push(make_option(OptionType::Frequency, "Frequency",
            "Click to edit how often it triggers", true, "frequency"));
        v.push(make_option(OptionType::DateTime, "Starting at",
            "Click to edit the start date and time", true, "start-date"));
        assert(option_views(v@) =~= trigger_options_spec(x));
        v
    } else if x == T_CERTAIN_DAYS {
        let mut v: Vec<OptionDetails> = Vec::new();
        v.push(make_option(OptionType::Days, "Days of the week",
            "Click to edit the days of the week this option triggers on", true, "days-active"));
        v.push(make_option(OptionType::Time, "Trigger at",
            "Click to edit the time of day the option will trigger at", true, "time"));
        assert(option_views(v@) =~= trigger_options_spec(x));
        v
    } else {
        unknown_options()
    }
}

/// A trigger of an automation, with its options as JSON text.
#[derive(Debug, PartialEq, Eq)]
pub struct AutomationTrigger {
    pub id: i64,
    pub trig_type: i64,
    pub details: String,
}

impl Clone for AutomationTrigger {
    fn clone(&self) -> (res: Self)
        ensures
            res == *self,
    {
        AutomationTrigger { id: self.id, trig_type: self.trig_type, details: self.details.clone() }
    }
}

/* === Actions === */

pub const A_COMMAND: i64 = 1;
pub const A_NOTIFICATION: i64 = 2;

/// The highest action kind that can be chosen when creating an action.
pub const ACTION_MAX: i64 = 2;

/// The display name of each action kind.
pub open spec fn action_name_spec(x: i64) -> Seq<char> {
    if x == A_COMMAND {
        "Run command"@
    } else if x == A_NOTIFICATION {
        "Send notification"@
    } else {
        "Unknown"@
    }
}

/// Returns the display name of an action kind.
pub fn action_to_name(x: i64) -> (res: String)
    ensures
        res@ == action_name_spec(x),
{
    if x == A_COMMAND {
        String::from_str("Run command")
    } else if x == A_NOTIFICATION {
        String::from_str("Send notification")
    } else {
        String::from_str("Unknown")
    }
}

/// The icon shown beside each action kind.
pub open spec fn action_icon_spec(x: i64) -> Seq<char> {
    if x == A_COMMAND {
        "utilities-terminal-symbolic"@
    } else if x == A_NOTIFICATION {
        "preferences-system-notifications-symbolic"@
    } else {
        "value-decrease-symbolic"@
    }
}

/// Returns the icon name of an action kind.
pub fn action_to_icon_name(x: i64) -> (res: String)
    ensures
        res@ == action_icon_spec(x),
{
    if x == A_COMMAND {
        String::from_str("utilities-terminal-symbolic")
    } else if x == A_NOTIFICATION {
        String::from_str("preferences-system-notifications-symbolic")
    } else {
        String::from_str("value-decrease-symbolic")
    }
}

/// The options each action kind takes.
pub open spec fn action_options_spec(x: i64) -> Seq<OptionDetailsView> {
    if x == A_COMMAND {
        seq![
            option_spec(OptionType::String, "Command"@,
                "Click to edit the command being run"@, true, "command"@),
        ]
    } else if x == A_NOTIFICATION {
        seq![
            option_spec(OptionType::String, "Notification Contents"@,
                "Click to edit the notification contents"@, true, "contents"@),
        ]
    } else {
        seq![unknown_option_spec()]
    }
}

/// Returns the options that an action of kind `x` takes.
pub fn action_get_option_details(x: i64) -> (res: Vec<OptionDetails>)
    ensures
        option_views(res@) == action_options_spec(x),
{
    if x == A_COMMAND {
        let mut v: Vec<OptionDetails> = Vec::new();
        v.push(make_option(OptionType::String, "Command",
            "Click to edit the command being run", true, "command"));
        assert(option_views(v@) =~= action_options_spec(x));
        v
    } else if x == A_NOTIFICATION {
        let mut v: Vec<OptionDetails> = Vec::new();
        v.push(make_option(OptionType::String, "Notification Contents",
            "Click to edit the notification contents", true, "contents"));
        assert(option_views(v@) =~= action_options_spec(x));
        v
    } else {
        unknown_options()
    }
}

/// An action of an automation, with its options as JSON text.
#[derive(Debug, PartialEq, Eq)]
pub struct AutomationAction {
    pub id: i64,
    pub action_type: i64,
    pub details: String,
}

impl Clone for AutomationAction {
    fn clone(&self) -> (res: Self)
        ensures
            res == *self,
    {
        AutomationAction { id: self.id, action_type: self.action_type, details: self.details.clone() }
    }
}

/// An automation: a named set of triggers and actions that can be
/// switched off.
#[derive(Debug, PartialEq, Eq)]
pub struct Automation {
    pub id: i64,
    pub name: String,
    pub active: bool,
}

impl Clone for Automation {
    fn clone(&self) -> (res: Self)
        ensures
            res == *self,
    {
        Automation { id: self.id, name: self.name.clone(), active: self.active }
    }
}

/// The direction in which an action is moved in its list.
#[derive(Clone, Copy, Debug, PartialEq, Eq, Structural)]
pub enum MoveDirection {
    Up,
    Down,
}

} // verus!
