//! What the sidebar and the automation view show for the model: the
//! automation list, the selected automation's title, and one row per
//! trigger and per action.

use vstd::prelude::*;
use crate::action_summary::{action_summary_spec, summarise as summarise_action};
use crate::app_model::AppModel;
use crate::common::{
    action_icon_spec, action_to_icon_name, trigger_icon_spec, trigger_name_spec, trigger_to_icon_name,
    trigger_to_name, AutomationAction, AutomationTrigger,
};
use crate::trigger_summary::{summarise as summarise_trigger, trigger_summary_spec};

verus! {

/// The Pango markup of an automation's entry in the sidebar: the name,
/// greyed out when the automation is not active. `None` when the plain
/// name is shown.
pub fn sidebar_item_markup(title: &str, active: bool) -> (res: Option<String>)
    ensures
        active ==> res is None,
        !active ==> res is Some && res->0@ == "<span foreground=\"gray\">"@ + title@ + "</span>"@,
{
    if active {
        None
    } else {
        let mut s = String::from_str("<span foreground=\"gray\">");
        s.append(title);
        s.append("</span>");
        Some(s)
    }
}

/// The Pango markup of the selected automation's title: its name in bold.
pub fn title_markup(name: &str) -> (res: String)
    ensures
        res@ == "<b>"@ + name@ + "</b>"@,
{
    let mut s = String::from_str("<b>");
    s.append(name);
    s.append("</b>");
    s
}

/// The row the automation view shows for a trigger.
pub struct TriggerRow {
    pub id: i64,
    pub title: String,
    pub subtitle: String,
    pub icon: String,
}

/// Returns the row for a trigger: its kind's name, its summary and its
/// kind's icon.
pub fn trigger_row(trigger: &AutomationTrigger) -> (res: TriggerRow)
    ensures
        res.id == trigger.id,
        res.title@ == trigger_name_spec(trigger.trig_type),
        res.subtitle@ == trigger_summary_spec(trigger.trig_type, trigger.details@),
        res.icon@ == trigger_icon_spec(trigger.trig_type),
{
    TriggerRow {
        id: trigger.id,
        title: trigger_to_name(trigger.trig_type),
        subtitle: summarise_trigger(trigger),
        icon: trigger_to_icon_name(trigger.trig_type),
    }
}

/// The row the automation view shows for an action.
pub struct ActionRow {
    pub id: i64,
    pub title: String,
    pub icon: String,
    /// Whether the action can be moved up: it is not the first.
    pub can_move_up: bool,
    /// Whether the action can be moved down: it is not the last.
    pub can_move_down: bool,
}

/// Returns the rows for the actions, in order. The first cannot be moved
/// up and the last cannot be moved down.
pub fn action_rows(actions: &Vec<AutomationAction>) -> (res: Vec<ActionRow>)
    ensures
        res@.len() == actions@.len(),
        forall|i: int| 0 <= i < res@.len() ==> {
            let a = #[trigger] actions@[i];
            &&& res@[i].id == a.id
            &&& res@[i].title@ == action_summary_spec(a.action_type, a.details@)
            &&& res@[i].icon@ == action_icon_spec(a.action_type)
            &&& res@[i].can_move_up == (i != 0)
            &&& res@[i].can_move_down == (i != actions@.len() - 1)
        },
{
    let mut rows: Vec<ActionRow> = Vec::new();
    let n = actions.len();
    let mut i: usize = 0;
    while i < n
        invariant
            n == actions@.len(),
            i <= n,
            rows@.len() == i,
            forall|j: int| 0 <= j < i ==> {
                let a = #[trigger] actions@[j];
                &&& rows@[j].id == a.id
                &&& rows@[j].title@ == action_summary_spec(a.action_type, a.details@)
                &&& rows@[j].icon@ == action_icon_spec(a.action_type)
                &&& rows@[j].can_move_up == (j != 0)
                &&& rows@[j].can_move_down == (j != n - 1)
            },
        decreases n - i,
    {
        let action = &actions[i];
        rows.push(ActionRow {
            id: action.id,
            title: summarise_action(action),
            icon: action_to_icon_name(action.action_type),
            can_move_up: i != 0,
            can_move_down: i != n - 1,
        });
        i = i + 1;
    }
    rows
}

/// Returns the rows for the triggers, in order.
pub fn trigger_rows(triggers: &Vec<AutomationTrigger>) -> (res: Vec<TriggerRow>)
    ensures
        res@.len() == triggers@.len(),
        forall|i: int| 0 <= i < res@.len() ==> {
            let t = #[trigger] triggers@[i];
            &&& res@[i].id == t.id
            &&& res@[i].title@ == trigger_name_spec(t.trig_type)
            &&& res@[i].subtitle@ == trigger_summary_spec(t.trig_type, t.details@)
            &&& res@[i].icon@ == trigger_icon_spec(t.trig_type)
        },
{
    let mut rows: Vec<TriggerRow> = Vec::new();
    let mut i: usize = 0;
    while i < triggers.len()
        invariant
            i <= triggers@.len(),
            rows@.len() == i,
            forall|j: int| 0 <= j < i ==> {
                let t = #[trigger] triggers@[j];
                &&& rows@[j].id == t.id
                &&& rows@[j].title@ == trigger_name_spec(t.trig_type)
                &&& rows@[j].subtitle@ == trigger_summary_spec(t.trig_type, t.details@)
                &&& rows@[j].icon@ == trigger_icon_spec(t.trig_type)
            },
        decreases triggers@.len() - i,
    {
        rows.push(trigger_row(&triggers[i]));
        i = i + 1;
    }
    rows
}

/// The row of the sidebar to select for the model's current index: none
/// when the index does not point at one of the `rows` rows.
pub fn selected_row(current_index: i64, rows: usize) -> (res: Option<usize>)
    ensures
        0 <= current_index < rows ==> res == Some(current_index as usize) && res->0 as int == current_index,
        !(0 <= current_index < rows) ==> res is None,
{
    if current_index >= 0 && (current_index as u64) < (rows as u64) {
        let i = current_index as u64;
        assert(i < rows);
        Some(i as usize)
    } else {
        None
    }
}

/// Whether the automation view shows an automation: one is selected.
pub fn shows_automation(model: &AppModel) -> (res: bool)
    ensures
        res == (model.current_index != -1),
{
    model.current_index != -1
}

} // verus!
