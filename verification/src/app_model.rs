//! The state of the GUI: the automations, the selected one, and its
//! triggers and actions.

use vstd::prelude::*;
use crate::common::{Automation, AutomationAction, AutomationTrigger};

verus! {

/// The index of the first automation in `automations` with the ID `id`,
/// or -1 when there is none.
pub open spec fn index_of_id(automations: Seq<Automation>, id: i64) -> int
    decreases automations.len(),
{
    if automations.len() == 0 {
        -1
    } else if automations.last().id == id && index_of_id(automations.drop_last(), id) == -1 {
        automations.len() - 1
    } else {
        index_of_id(automations.drop_last(), id)
    }
}

/// The index `index_of_id` gives holds the ID, and no automation before
/// it (none at all, for -1) does.
pub proof fn lemma_index_of_id(automations: Seq<Automation>, id: i64)
    ensures
        -1 <= index_of_id(automations, id) < automations.len(),
        index_of_id(automations, id) >= 0 ==> automations[index_of_id(automations, id)].id == id,
        forall|j: int| 0 <= j < automations.len() && (index_of_id(automations, id) == -1 || j < index_of_id(automations, id))
            ==> #[trigger] automations[j].id != id,
    decreases automations.len(),
{
    if automations.len() > 0 {
        lemma_index_of_id(automations.drop_last(), id);
        assert forall|j: int| 0 <= j < automations.len() - 1 implies #[trigger] automations[j] == automations.drop_last()[j] by {}
    }
}

/// Stores the current state of the application.
pub struct AppModel {
    pub automation_id: i64,
    pub current_index: i64,
    pub automations: Vec<Automation>,
    pub triggers: Vec<AutomationTrigger>,
    pub actions: Vec<AutomationAction>,
}

impl AppModel {
    /// Constructs a new app model with no automation selected and empty
    /// lists.
    pub fn new() -> (res: Self)
        ensures
            res.automation_id == -1,
            res.current_index == -1,
            res.automations@.len() == 0,
            res.triggers@.len() == 0,
            res.actions@.len() == 0,
    {
        AppModel {
            automation_id: -1,
            current_index: -1,
            automations: Vec::new(),
            triggers: Vec::new(),
            actions: Vec::new(),
        }
    }

    /// Sets the currently selected automation ID to a different ID.
    pub fn set_current_automation_id(&mut self, automation_id: i64)
        ensures
            final(self).automation_id == automation_id,
            final(self).current_index == old(self).current_index,
            final(self).automations@ == old(self).automations@,
            final(self).triggers@ == old(self).triggers@,
            final(self).actions@ == old(self).actions@,
    {
        self.automation_id = automation_id;
    }

    /// Gets the currently selected automation's index in the
    /// 'automations' list.
    pub fn get_current_automation_index(&self) -> (res: i64)
        ensures
            res == self.current_index,
    {
        self.current_index
    }

    /// Sets the index of the current automation in the 'automations'
    /// list.
    pub fn set_current_automation_index(&mut self, index: i64)
        ensures
            final(self).current_index == index,
            final(self).automation_id == old(self).automation_id,
            final(self).automations@ == old(self).automations@,
            final(self).triggers@ == old(self).triggers@,
            final(self).actions@ == old(self).actions@,
    {
        self.current_index = index;
    }

    /// Whether the current index points into the automations list.
    pub open spec fn has_current(&self) -> bool {
        0 <= self.current_index < self.automations@.len()
    }

    /// Returns the index of the first automation with the ID `id`, or -1
    /// when no automation has it.
    pub fn index_of(&self, id: i64) -> (res: i64)
        requires
            self.automations@.len() <= i64::MAX,
        ensures
            res == index_of_id(self.automations@, id),
    {
        proof {
            lemma_index_of_id(self.automations@, id);
        }
        let ghost target = index_of_id(self.automations@, id);
        let mut index: usize = 0;
        while index < self.automations.len()
            invariant
                index <= self.automations@.len() <= i64::MAX,
                target == index_of_id(self.automations@, id),
                -1 <= target < self.automations@.len(),
                target >= 0 ==> self.automations@[target].id == id,
                forall|j: int| 0 <= j < self.automations@.len() && (target == -1 || j < target)
                    ==> #[trigger] self.automations@[j].id != id,
                target == -1 || index <= target,
            decreases self.automations@.len() - index,
        {
            if self.automations[index].id == id {
                return index as i64;
            }
            index = index + 1;
        }
        -1
    }

    /// Updates the index of the currently selected automation
    /// by searching for it by ID. If not found, the index is
    /// set to -1.
    pub fn update_automation_index(&mut self)
        requires
            old(self).automations@.len() <= i64::MAX,
        ensures
            final(self).current_index == index_of_id(old(self).automations@, old(self).automation_id),
            final(self).automation_id == old(self).automation_id,
            final(self).automations@ == old(self).automations@,
            final(self).triggers@ == old(self).triggers@,
            final(self).actions@ == old(self).actions@,
    {
        let index = self.index_of(self.automation_id);
        self.current_index = index;
    }

    /// Replaces the list of automations with the one fetched from the daemon.
    pub fn update_automations_list(&mut self, automations: Vec<Automation>)
        ensures
            final(self).automations@ == automations@,
            final(self).automation_id == old(self).automation_id,
            final(self).current_index == old(self).current_index,
            final(self).triggers@ == old(self).triggers@,
            final(self).actions@ == old(self).actions@,
    {
        self.automations = automations;
    }

    /// Replaces the list of triggers with the one fetched from the daemon.
    pub fn update_triggers_list(&mut self, triggers: Vec<AutomationTrigger>)
        ensures
            final(self).triggers@ == triggers@,
            final(self).automation_id == old(self).automation_id,
            final(self).current_index == old(self).current_index,
            final(self).automations@ == old(self).automations@,
            final(self).actions@ == old(self).actions@,
    {
        self.triggers = triggers;
    }

    /// Replaces the list of actions with the one fetched from the daemon.
    pub fn update_actions_list(&mut self, actions: Vec<AutomationAction>)
        ensures
            final(self).actions@ == actions@,
            final(self).automation_id == old(self).automation_id,
            final(self).current_index == old(self).current_index,
            final(self).automations@ == old(self).automations@,
            final(self).triggers@ == old(self).triggers@,
    {
        self.actions = actions;
    }

    /// Records the outcome of deleting the selected automation: when the
    /// daemon deleted it, no automation is selected any more.
    pub fn delete_automation(&mut self, deleted: bool)
        ensures
            deleted ==> final(self).automation_id == -1 && final(self).current_index == -1,
            !deleted ==> final(self).automation_id == old(self).automation_id
                && final(self).current_index == old(self).current_index,
            final(self).automations@ == old(self).automations@,
            final(self).triggers@ == old(self).triggers@,
            final(self).actions@ == old(self).actions@,
    {
        if deleted {
            self.automation_id = -1;
            self.current_index = -1;
        }
    }

    /// Returns a copy of the selected automation, to be sent back to the
    /// daemon, or `None` when no automation is selected.
    pub fn current_automation(&self) -> (res: Option<Automation>)
        ensures
            self.has_current() ==> res == Some(self.automations@[self.current_index as int]),
            !self.has_current() ==> res is None,
    {
        if self.current_index >= 0 && (self.current_index as u64) < (self.automations.len() as u64) {
            let len = self.automations.len();
            let i = self.current_index as u64;
            assert(i < len);
            let i = i as usize;
            Some(self.automations[i].clone())
        } else {
            None
        }
    }
}

} // verus!
