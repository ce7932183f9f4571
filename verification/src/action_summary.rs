//! Summaries of actions as the one-line titles the GUI shows, and the
//! reading of the text an action's string option holds.

use vstd::prelude::*;
use crate::common::{AutomationAction, A_COMMAND, A_NOTIFICATION};
use crate::json::{
    as_str, find_member, find_member_text, get_member, json_parse, member_text, object_members,
    opt_string_view, pair_views, parse_json, parse_object, text_as_str,
};

verus! {

/// The text entered in the string picker stored under `key`: `None` when
/// the picker or its "string" member is missing, and the empty text when
/// the member is not a JSON string.
pub open spec fn string_option(root: Seq<(Seq<char>, Seq<char>)>, key: Seq<char>) -> Option<Seq<char>> {
    match find_member(root, key) {
        None => None,
        Some(p) => match member_text(json_parse(p), "string"@) {
            None => None,
            Some(s) => match text_as_str(s) {
                Some(x) => Some(x),
                None => Some(Seq::empty()),
            },
        },
    }
}

/// Reads the text entered in the string picker stored under `key`.
pub fn read_string_option(root_json: &Vec<(String, String)>, key: &str) -> (res: Option<String>)
    ensures
        opt_string_view(res) == string_option(pair_views(root_json@), key@),
{
    match find_member_text(root_json, key) {
        None => None,
        Some(p) => match get_member(&parse_json(p.as_str()), "string") {
            None => None,
            Some(s) => match as_str(s.as_str()) {
                Some(x) => Some(x),
                None => Some(String::new()),
            },
        },
    }
}

/// The summary of a string picker: its text, or "[invalid string]".
pub open spec fn string_summary(root: Seq<(Seq<char>, Seq<char>)>, key: Seq<char>) -> Seq<char> {
    match string_option(root, key) {
        Some(s) => s,
        None => "[invalid string]"@,
    }
}

/// Summarises the JSON provided by a string picker, given the root
/// JSON and the key at which it is stored.
pub fn summarise_string_picker(root_json: &Vec<(String, String)>, key: &str) -> (res: String)
    ensures
        res@ == string_summary(pair_views(root_json@), key@),
{
    match read_string_option(root_json, key) {
        Some(s) => s,
        None => String::from_str("[invalid string]"),
    }
}

/// The title the GUI shows for an action (Pango markup).
pub open spec fn action_summary_spec(action_type: i64, details: Seq<char>) -> Seq<char> {
    let root = object_members(details);
    if action_type == A_COMMAND {
        "Run command: <span alpha='60%'>"@ + string_summary(root, "command"@) + "</span>"@
    } else if action_type == A_NOTIFICATION {
        "Send notification: <span alpha='60%'>\""@ + string_summary(root, "contents"@)
            + "\"</span>"@
    } else {
        Seq::empty()
    }
}

/// Summarises the provided action into a format used for the subtitle in
/// the GUI.
pub fn summarise(a: &AutomationAction) -> (res: String)
    ensures
        res@ == action_summary_spec(a.action_type, a.details@),
{
    if a.action_type == A_COMMAND {
        let root = parse_object(a.details.as_str());
        let summary_string = summarise_string_picker(&root, "command");
        let mut s = String::from_str("Run command: <span alpha='60%'>");
        s.append(summary_string.as_str());
        s.append("</span>");
        s
    } else if a.action_type == A_NOTIFICATION {
        let root = parse_object(a.details.as_str());
        let summary_string = summarise_string_picker(&root, "contents");
        let mut s = String::from_str("Send notification: <span alpha='60%'>\"");
        s.append(summary_string.as_str());
        s.append("\"</span>");
        s
    } else {
        String::new()
    }
}

} // verus!
