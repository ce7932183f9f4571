//! What the deletion confirmation asks and what it sends, for each kind of
//! structure that can be deleted.

use vstd::prelude::*;
use crate::message::UIEvent;

verus! {

/// Types of structures which can be deleted by the deletion menu.
#[derive(Clone, Copy, Debug, PartialEq, Eq, Structural)]
pub enum DeleteType {
    /// Deleting an automation, which needs no ID (a deletion of an
    /// automation always refers to the currently selected one).
    Automation,
    /// Deleting a trigger, which needs the trigger's ID.
    Trigger,
    /// Deleting an action, which needs the action's ID.
    Action,
}

impl DeleteType {
    /// The name of the structure being deleted.
    pub open spec fn name_spec(&self) -> Seq<char> {
        match self {
            DeleteType::Automation => "Automation"@,
            DeleteType::Trigger => "Trigger"@,
            DeleteType::Action => "Action"@,
        }
    }

    /// The name of the structure being deleted, in lower case.
    pub open spec fn lower_name_spec(&self) -> Seq<char> {
        match self {
            DeleteType::Automation => "automation"@,
            DeleteType::Trigger => "trigger"@,
            DeleteType::Action => "action"@,
        }
    }

    /// Whether deleting this structure needs an ID.
    pub open spec fn requires_id_spec(&self) -> bool {
        *self == DeleteType::Trigger || *self == DeleteType::Action
    }

    /// Returns the name of the structure being deleted as a string.
    pub fn to_string(&self) -> (res: &'static str)
        ensures
            res@ == self.name_spec(),
    {
        match self {
            DeleteType::Automation => "Automation",
            DeleteType::Trigger => "Trigger",
            DeleteType::Action => "Action",
        }
    }

    /// Returns whether or not this type requires an ID.
    pub fn requires_id(&self) -> (res: bool)
        ensures
            res == self.requires_id_spec(),
    {
        match self {
            DeleteType::Automation => false,
            DeleteType::Trigger => true,
            DeleteType::Action => true,
        }
    }

    /// Returns a UI event which should be sent to signal the deletion
    /// of this structure, given an ID where one is required.
    pub fn get_deletion_event(&self, id: Option<i64>) -> (res: UIEvent)
        requires
            self.requires_id_spec() ==> id is Some,
        ensures
            *self == DeleteType::Automation ==> res == UIEvent::DeletedAutomation(),
            *self == DeleteType::Trigger ==> res == UIEvent::DeletedTrigger(id->0),
            *self == DeleteType::Action ==> res == UIEvent::DeletedAction(id->0),
    {
        match self {
            DeleteType::Automation => UIEvent::DeletedAutomation(),
            DeleteType::Trigger => match id {
                Some(i) => UIEvent::DeletedTrigger(i),
                None => UIEvent::DeletedAutomation(),
            },
            DeleteType::Action => match id {
                Some(i) => UIEvent::DeletedAction(i),
                None => UIEvent::DeletedAutomation(),
            },
        }
    }

    /// Returns the heading of the confirmation: "Delete" and the name.
    pub fn heading(&self) -> (res: String)
        ensures
            res@ == "Delete "@ + self.name_spec(),
    {
        let mut s = String::from_str("Delete ");
        s.append(self.to_string());
        s
    }

    /// Returns the question the confirmation asks.
    pub fn body(&self) -> (res: String)
        ensures
            res@ == "Are you sure you want to delete this "@ + self.lower_name_spec() + "?"@,
    {
        let lower = match self {
            DeleteType::Automation => "automation",
            DeleteType::Trigger => "trigger",
            DeleteType::Action => "action",
        };
        let mut s = String::from_str("Are you sure you want to delete this ");
        s.append(lower);
        s.append("?");
        s
    }
}

} // verus!
