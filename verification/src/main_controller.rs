//! The controller of the GUI, as a machine that turns each event from the
//! views into the requests to the daemon, the model changes and the view
//! notifications that follow from it, one step at a time. Its caller sends
//! each request and hands the reply back.

use vstd::prelude::*;
use crate::app_model::{index_of_id, lemma_index_of_id, AppModel};
use crate::common::{Automation, AutomationAction, AutomationTrigger, MoveDirection};
use crate::message::{ModelUpdate, UIEvent};

verus! {

/// A request to the daemon.
pub enum Request {
    GetAutomations,
    GetAutomationTriggers(i64),
    GetAutomationActions(i64),
    AddAutomation(String),
    UpdateAutomation(Automation),
    DeleteAutomation(i64),
    RunAutomation(i64, bool),
    AddTrigger(i64, i64, String),
    UpdateTrigger(i64, String),
    DeleteTrigger(i64),
    AddAction(i64, i64, String),
    UpdateAction(i64, String),
    MoveAction(i64, MoveDirection),
    DeleteAction(i64),
}

/// The daemon's reply to a request.
pub enum Reply {
    Automations(Vec<Automation>),
    Triggers(Vec<AutomationTrigger>),
    Actions(Vec<AutomationAction>),
    NewId(i64),
    Done,
    Failed,
}

/// One step of handling an event.
pub enum Step {
    /// Send a request whose reply does not matter.
    Send(Request),
    /// Add an automation named "New Automation" and select it.
    AddNewAutomation,
    /// Fetch the list of automations.
    RefreshAutomations,
    /// Fetch the triggers of the selected automation.
    RefreshTriggers,
    /// Fetch the actions of the selected automation.
    RefreshActions,
    /// Find the selected automation's index in the list by its ID.
    UpdateIndex,
    /// Delete the selected automation.
    DeleteCurrent,
    /// Send the selected automation back to the daemon.
    Sync,
    /// Tell the views about a change of the model.
    Notify(ModelUpdate),
    /// Give up: the event refers to an automation that does not exist.
    Fail,
}

/// What the reply to the request sent last is for.
#[derive(Clone, Copy, Debug, PartialEq, Eq, Structural)]
pub enum Awaiting {
    /// Nothing depends on the reply.
    Ignore,
    /// The ID of the automation just added.
    NewAutomation,
    /// The list of automations.
    Automations,
    /// The triggers of the selected automation.
    Triggers,
    /// The actions of the selected automation.
    Actions,
    /// Whether the selected automation was deleted.
    Deletion,
}

/// What the caller is to do next.
pub enum ControllerAction {
    /// Send this request and hand the reply back.
    Call(Request),
    /// Tell the views about this change of the model.
    Notify(ModelUpdate),
    /// Ask for the next step.
    Continue,
    /// Stop the application: a request it cannot do without failed, or an
    /// event referred to an automation that does not exist.
    Exit,
    /// The event has been handled.
    Idle,
}

/// The steps that handle `message`, given the model when it arrives.
pub open spec fn script_for(m: AppModel, message: UIEvent) -> Seq<Step> {
    let update = Step::Notify(ModelUpdate::AutomationUpdate);
    let list_update = Step::Notify(ModelUpdate::AutomationListUpdate);
    match message {
        UIEvent::AddedAutomation => seq![
            Step::AddNewAutomation, Step::RefreshAutomations, Step::UpdateIndex,
            Step::RefreshTriggers, Step::RefreshActions, list_update, update,
        ],
        UIEvent::ChangedAutomation(id) => if index_of_id(m.automations@, id) >= 0 {
            seq![Step::RefreshTriggers, Step::RefreshActions, update]
        } else {
            seq![Step::Fail]
        },
        UIEvent::UpdatedAutomationName(_) => if m.has_current() {
            seq![Step::Sync, Step::RefreshAutomations, list_update, update]
        } else {
            seq![Step::Fail]
        },
        UIEvent::UpdatedAutomationActivity(a) => if !m.has_current() {
            seq![Step::Fail]
        } else if m.automations@[m.current_index as int].active == a {
            Seq::empty()
        } else {
            seq![Step::Sync, Step::RefreshAutomations, list_update, update]
        },
        UIEvent::DeletedAutomation() => seq![
            Step::DeleteCurrent, Step::RefreshAutomations, list_update, update,
        ],
        UIEvent::RanAutomation() => seq![Step::Send(Request::RunAutomation(m.automation_id, true))],
        UIEvent::AddedTrigger(t, d) => seq![
            Step::Send(Request::AddTrigger(m.automation_id, t, d)), Step::RefreshTriggers, update,
        ],
        UIEvent::UpdatedTrigger(id, d) => seq![
            Step::Send(Request::UpdateTrigger(id, d)), Step::RefreshTriggers, update,
        ],
        UIEvent::DeletedTrigger(id) => seq![
            Step::Send(Request::DeleteTrigger(id)), Step::RefreshTriggers, update,
        ],
        UIEvent::AddedAction(t, d) => seq![
            Step::Send(Request::AddAction(m.automation_id, t, d)), Step::RefreshActions, update,
        ],
        UIEvent::UpdatedAction(id, d) => seq![
            Step::Send(Request::UpdateAction(id, d)), Step::RefreshActions, update,
        ],
        UIEvent::MoveAction(id, dir) => seq![
            Step::Send(Request::MoveAction(id, dir)), Step::RefreshActions, update,
        ],
        UIEvent::DeletedAction(id) => seq![
            Step::Send(Request::DeleteAction(id)), Step::RefreshActions, update,
        ],
    }
}

/// Whether two models hold the same state.
pub open spec fn same_model(a: AppModel, b: AppModel) -> bool {
    &&& a.automation_id == b.automation_id
    &&& a.current_index == b.current_index
    &&& a.automations@ == b.automations@
    &&& a.triggers@ == b.triggers@
    &&& a.actions@ == b.actions@
}

/// The model after the changes an event makes as soon as it is handled.
pub open spec fn model_after_event(old: AppModel, new: AppModel, message: UIEvent) -> bool {
    match message {
        UIEvent::ChangedAutomation(id) => if index_of_id(old.automations@, id) >= 0 {
            &&& new.automation_id == id
            &&& new.current_index == index_of_id(old.automations@, id)
            &&& new.automations@ == old.automations@
            &&& new.triggers@ == old.triggers@
            &&& new.actions@ == old.actions@
        } else {
            same_model(old, new)
        },
        UIEvent::UpdatedAutomationName(n) => if old.has_current() {
            let a = old.automations@[old.current_index as int];
            &&& new.automation_id == old.automation_id
            &&& new.current_index == old.current_index
            &&& new.automations@ == old.automations@.update(
                old.current_index as int,
                Automation { id: a.id, name: n, active: a.active },
            )
            &&& new.triggers@ == old.triggers@
            &&& new.actions@ == old.actions@
        } else {
            same_model(old, new)
        },
        UIEvent::UpdatedAutomationActivity(act) => if old.has_current() {
            let a = old.automations@[old.current_index as int];
            &&& new.automation_id == old.automation_id
            &&& new.current_index == old.current_index
            &&& new.automations@ == old.automations@.update(
                old.current_index as int,
                Automation { id: a.id, name: a.name, active: act },
            )
            &&& new.triggers@ == old.triggers@
            &&& new.actions@ == old.actions@
        } else {
            same_model(old, new)
        },
        _ => same_model(old, new),
    }
}

/// The main controller of the application: it owns the model and the
/// steps left of the event being handled.
pub struct MainController {
    pub app_model: AppModel,
    pub script: Vec<Step>,
    pub awaiting: Option<Awaiting>,
}

impl MainController {
    /// Constructs the controller around a fresh model. Its first step
    /// fetches the automations and has the list drawn.
    pub fn new() -> (res: Self)
        ensures
            res.app_model.automation_id == -1,
            res.app_model.current_index == -1,
            res.app_model.automations@.len() == 0,
            res.app_model.triggers@.len() == 0,
            res.app_model.actions@.len() == 0,
            res.script@ == seq![Step::RefreshAutomations, Step::Notify(ModelUpdate::AutomationListUpdate)],
            res.awaiting is None,
    {
        let mut script: Vec<Step> = Vec::new();
        script.push(Step::RefreshAutomations);
        script.push(Step::Notify(ModelUpdate::AutomationListUpdate));
        MainController { app_model: AppModel::new(), script, awaiting: None }
    }

    /// Whether the controller has finished with the last event.
    pub open spec fn is_idle_spec(&self) -> bool {
        self.script@.len() == 0 && self.awaiting is None
    }

    /// Returns whether the controller has finished with the last event.
    pub fn is_idle(&self) -> (res: bool)
        ensures
            res == self.is_idle_spec(),
    {
        self.script.len() == 0 && self.awaiting.is_none()
    }

    /// Handles an incoming message from the views about an action the
    /// user has taken in the GUI: makes the changes to the model that
    /// follow at once, and lays out the steps that remain.
    pub fn handle(&mut self, message: UIEvent)
        requires
            old(self).is_idle_spec(),
            old(self).app_model.automations@.len() <= i64::MAX,
        ensures
            final(self).script@ == script_for(old(self).app_model, message),
            final(self).awaiting is None,
            model_after_event(old(self).app_model, final(self).app_model, message),
    {
        let ghost m0 = self.app_model;
        let mut script: Vec<Step> = Vec::new();
        match message {
            UIEvent::AddedAutomation => {
                script.push(Step::AddNewAutomation);
                script.push(Step::RefreshAutomations);
                script.push(Step::UpdateIndex);
                script.push(Step::RefreshTriggers);
                script.push(Step::RefreshActions);
                script.push(Step::Notify(ModelUpdate::AutomationListUpdate));
                script.push(Step::Notify(ModelUpdate::AutomationUpdate));
            },
            UIEvent::ChangedAutomation(id) => {
                let index = self.app_model.index_of(id);
                if index >= 0 {
                    self.app_model.set_current_automation_id(id);
                    self.app_model.set_current_automation_index(index);
                    script.push(Step::RefreshTriggers);
                    script.push(Step::RefreshActions);
                    script.push(Step::Notify(ModelUpdate::AutomationUpdate));
                } else {
                    script.push(Step::Fail);
                }
            },
            UIEvent::UpdatedAutomationName(new_name) => {
                match self.current_position() {
                    Some(i) => {
                        let old = self.app_model.automations[i].clone();
                        self.app_model.automations.set(i, Automation { id: old.id, name: new_name, active: old.active });
                        script.push(Step::Sync);
                        script.push(Step::RefreshAutomations);
                        script.push(Step::Notify(ModelUpdate::AutomationListUpdate));
                        script.push(Step::Notify(ModelUpdate::AutomationUpdate));
                    },
                    None => {
                        script.push(Step::Fail);
                    },
                }
            },
            UIEvent::UpdatedAutomationActivity(active) => {
                match self.current_position() {
                    Some(i) => {
                        let previous_activity = self.app_model.automations[i].active;
                        // Nothing to do when the active state has not changed.
                        if previous_activity != active {
                            let old = self.app_model.automations[i].clone();
                            self.app_model.automations.set(i, Automation { id: old.id, name: old.name, active });
                            script.push(Step::Sync);
                            script.push(Step::RefreshAutomations);
                            script.push(Step::Notify(ModelUpdate::AutomationListUpdate));
                            script.push(Step::Notify(ModelUpdate::AutomationUpdate));
                        } else {
                            let ghost a = m0.automations@[i as int];
                            assert(m0.automations@.update(i as int, Automation { id: a.id, name: a.name, active }) =~= m0.automations@);
                        }
                    },
                    None => {
                        script.push(Step::Fail);
                    },
                }
            },
            UIEvent::DeletedAutomation() => {
                script.push(Step::DeleteCurrent);
                script.push(Step::RefreshAutomations);
                script.push(Step::Notify(ModelUpdate::AutomationListUpdate));
                script.push(Step::Notify(ModelUpdate::AutomationUpdate));
            },
            UIEvent::RanAutomation() => {
                script.push(Step::Send(Request::RunAutomation(self.app_model.automation_id, true)));
            },
            UIEvent::AddedTrigger(trig_type, details) => {
                script.push(Step::Send(Request::AddTrigger(self.app_model.automation_id, trig_type, details)));
                script.push(Step::RefreshTriggers);
                script.push(Step::Notify(ModelUpdate::AutomationUpdate));
            },
            UIEvent::UpdatedTrigger(trig_id, new_details) => {
                script.push(Step::Send(Request::UpdateTrigger(trig_id, new_details)));
                script.push(Step::RefreshTriggers);
                script.push(Step::Notify(ModelUpdate::AutomationUpdate));
            },
            UIEvent::DeletedTrigger(trig_id) => {
                script.push(Step::Send(Request::DeleteTrigger(trig_id)));
                script.push(Step::RefreshTriggers);
                script.push(Step::Notify(ModelUpdate::AutomationUpdate));
            },
            UIEvent::AddedAction(action_type, details) => {
                script.push(Step::Send(Request::AddAction(self.app_model.automation_id, action_type, details)));
                script.push(Step::RefreshActions);
                script.push(Step::Notify(ModelUpdate::AutomationUpdate));
            },
            UIEvent::UpdatedAction(action_id, new_details) => {
                script.push(Step::Send(Request::UpdateAction(action_id, new_details)));
                script.push(Step::RefreshActions);
                script.push(Step::Notify(ModelUpdate::AutomationUpdate));
            },
            UIEvent::MoveAction(action_id, direction) => {
                script.push(Step::Send(Request::MoveAction(action_id, direction)));
                script.push(Step::RefreshActions);
                script.push(Step::Notify(ModelUpdate::AutomationUpdate));
            },
            UIEvent::DeletedAction(action_id) => {
                script.push(Step::Send(Request::DeleteAction(action_id)));
                script.push(Step::RefreshActions);
                script.push(Step::Notify(ModelUpdate::AutomationUpdate));
            },
        }
        assert(script@ =~= script_for(m0, message));
        self.script = script;
    }

    /// What taking one step does: `new` is the controller after `old`
    /// took its next step and told its caller `res`.
    pub open spec fn advance_post(old: MainController, new: MainController, res: ControllerAction) -> bool {
        &&& (old.script@.len() == 0 ==> res is Idle && new.script@ == old.script@
                && new.awaiting is None && same_model(old.app_model, new.app_model))
        &&& (old.script@.len() > 0 ==> new.script@ == old.script@.drop_first())
        &&& (old.script@.len() > 0 ==> {
                let m = old.app_model;
                let n = new.app_model;
                match old.script@[0] {
                    Step::Send(r) => res == ControllerAction::Call(r)
                        && new.awaiting == Some(Awaiting::Ignore) && same_model(m, n),
                    Step::AddNewAutomation => (res matches ControllerAction::Call(Request::AddAutomation(name))
                        && name@ == "New Automation"@)
                        && new.awaiting == Some(Awaiting::NewAutomation) && same_model(m, n),
                    Step::RefreshAutomations => res == ControllerAction::Call(Request::GetAutomations)
                        && new.awaiting == Some(Awaiting::Automations) && same_model(m, n),
                    Step::RefreshTriggers => res == ControllerAction::Call(Request::GetAutomationTriggers(m.automation_id))
                        && new.awaiting == Some(Awaiting::Triggers) && same_model(m, n),
                    Step::RefreshActions => res == ControllerAction::Call(Request::GetAutomationActions(m.automation_id))
                        && new.awaiting == Some(Awaiting::Actions) && same_model(m, n),
                    Step::UpdateIndex => res is Continue && new.awaiting is None
                        && n.current_index == index_of_id(m.automations@, m.automation_id)
                        && n.automation_id == m.automation_id && n.automations@ == m.automations@
                        && n.triggers@ == m.triggers@ && n.actions@ == m.actions@,
                    Step::DeleteCurrent => res == ControllerAction::Call(Request::DeleteAutomation(m.automation_id))
                        && new.awaiting == Some(Awaiting::Deletion) && same_model(m, n),
                    Step::Sync => same_model(m, n) && if m.has_current() {
                        res == ControllerAction::Call(Request::UpdateAutomation(m.automations@[m.current_index as int]))
                            && new.awaiting == Some(Awaiting::Ignore)
                    } else {
                        res is Exit && new.awaiting is None
                    },
                    Step::Notify(u) => res == ControllerAction::Notify(u) && new.awaiting is None
                        && same_model(m, n),
                    Step::Fail => res is Exit && new.awaiting is None && same_model(m, n),
                }
            })
    }

    /// Takes the next step of the event being handled, and says what the
    /// caller is to do: send a request (and hand the reply to `receive`),
    /// tell the views about a change, go on, stop the application, or
    /// nothing when the event has been handled.
    pub fn advance(&mut self) -> (res: ControllerAction)
        requires
            old(self).awaiting is None,
            old(self).app_model.automations@.len() <= i64::MAX,
        ensures
            Self::advance_post(*old(self), *final(self), res),
    {
        if self.script.len() == 0 {
            return ControllerAction::Idle;
        }
        let step = self.script.remove(0);
        assert(self.script@ =~= old(self).script@.drop_first());
        match step {
            Step::Send(r) => {
                self.awaiting = Some(Awaiting::Ignore);
                ControllerAction::Call(r)
            },
            Step::AddNewAutomation => {
                self.awaiting = Some(Awaiting::NewAutomation);
                ControllerAction::Call(Request::AddAutomation(String::from_str("New Automation")))
            },
            Step::RefreshAutomations => {
                self.awaiting = Some(Awaiting::Automations);
                ControllerAction::Call(Request::GetAutomations)
            },
            Step::RefreshTriggers => {
                self.awaiting = Some(Awaiting::Triggers);
                ControllerAction::Call(Request::GetAutomationTriggers(self.app_model.automation_id))
            },
            Step::RefreshActions => {
                self.awaiting = Some(Awaiting::Actions);
                ControllerAction::Call(Request::GetAutomationActions(self.app_model.automation_id))
            },
            Step::UpdateIndex => {
                self.app_model.update_automation_index();
                ControllerAction::Continue
            },
            Step::DeleteCurrent => {
                self.awaiting = Some(Awaiting::Deletion);
                ControllerAction::Call(Request::DeleteAutomation(self.app_model.automation_id))
            },
            Step::Sync => {
                match self.app_model.current_automation() {
                    Some(a) => {
                        self.awaiting = Some(Awaiting::Ignore);
                        ControllerAction::Call(Request::UpdateAutomation(a))
                    },
                    None => ControllerAction::Exit,
                }
            },
            Step::Notify(u) => ControllerAction::Notify(u),
            Step::Fail => ControllerAction::Exit,
        }
    }

    /// What handing over a reply does: `new` is the controller after `old`
    /// was handed `reply` and answered `ok`.
    pub open spec fn receive_post(old: MainController, new: MainController, reply: Reply, ok: bool) -> bool {
        &&& (new.awaiting is None)
        &&& (new.script@ == old.script@)
        &&& (({
                let m = old.app_model;
                let n = new.app_model;
                match old.awaiting->0 {
                    Awaiting::Ignore => ok && same_model(m, n),
                    Awaiting::NewAutomation => match reply {
                        Reply::NewId(id) => ok && n.automation_id == id && n.current_index == m.current_index
                            && n.automations@ == m.automations@ && n.triggers@ == m.triggers@
                            && n.actions@ == m.actions@,
                        _ => !ok && same_model(m, n),
                    },
                    Awaiting::Automations => match reply {
                        Reply::Automations(l) => ok && n.automations@ == l@ && n.automation_id == m.automation_id
                            && n.current_index == m.current_index && n.triggers@ == m.triggers@
                            && n.actions@ == m.actions@,
                        _ => !ok && same_model(m, n),
                    },
                    Awaiting::Triggers => match reply {
                        Reply::Triggers(l) => ok && n.triggers@ == l@ && n.automation_id == m.automation_id
                            && n.current_index == m.current_index && n.automations@ == m.automations@
                            && n.actions@ == m.actions@,
                        _ => !ok && same_model(m, n),
                    },
                    Awaiting::Actions => match reply {
                        Reply::Actions(l) => ok && n.actions@ == l@ && n.automation_id == m.automation_id
                            && n.current_index == m.current_index && n.automations@ == m.automations@
                            && n.triggers@ == m.triggers@,
                        _ => !ok && same_model(m, n),
                    },
                    Awaiting::Deletion => ok && match reply {
                        Reply::Done => n.automation_id == -1 && n.current_index == -1
                            && n.automations@ == m.automations@ && n.triggers@ == m.triggers@
                            && n.actions@ == m.actions@,
                        _ => same_model(m, n),
                    },
                }
            }))
    }

    /// Hands over the daemon's reply to the request sent last, and applies
    /// it to the model. Returns `false` when the reply is a failure that
    /// the application cannot go on after (the list of automations, the
    /// selected automation's triggers or actions, or a new automation's
    /// ID could not be had).
    pub fn receive(&mut self, reply: Reply) -> (ok: bool)
        requires
            old(self).awaiting is Some,
        ensures
            Self::receive_post(*old(self), *final(self), reply, ok),
    {
        let awaiting = match self.awaiting {
            Some(a) => a,
            None => Awaiting::Ignore,
        };
        self.awaiting = None;
        match awaiting {
            Awaiting::Ignore => true,
            Awaiting::NewAutomation => match reply {
                Reply::NewId(id) => {
                    self.app_model.set_current_automation_id(id);
                    true
                },
                _ => false,
            },
            Awaiting::Automations => match reply {
                Reply::Automations(l) => {
                    self.app_model.update_automations_list(l);
                    true
                },
                _ => false,
            },
            Awaiting::Triggers => match reply {
                Reply::Triggers(l) => {
                    self.app_model.update_triggers_list(l);
                    true
                },
                _ => false,
            },
            Awaiting::Actions => match reply {
                Reply::Actions(l) => {
                    self.app_model.update_actions_list(l);
                    true
                },
                _ => false,
            },
            Awaiting::Deletion => {
                let deleted = match reply {
                    Reply::Done => true,
                    _ => false,
                };
                self.app_model.delete_automation(deleted);
                true
            },
        }
    }

    /// The position of the selected automation in the list, if the
    /// current index points into it.
    fn current_position(&self) -> (res: Option<usize>)
        ensures
            self.app_model.has_current() ==> res == Some(self.app_model.current_index as usize)
                && (res->0 as int) == self.app_model.current_index,
            !self.app_model.has_current() ==> res is None,
    {
        let index = self.app_model.current_index;
        if index >= 0 && (index as u64) < (self.app_model.automations.len() as u64) {
            let len = self.app_model.automations.len();
            let i = index as u64;
            assert(i < len);
            Some(i as usize)
        } else {
            None
        }
    }
}


/// Adding an automation selects it: once the daemon has answered with the
/// new automation's ID and the refreshed list, the selected automation is
/// the new one, its index is its position in the list, and the triggers
/// fetched next are its own.
pub proof fn adding_an_automation_selects_it(
    c0: MainController,
    c1: MainController,
    c2: MainController,
    c3: MainController,
    c4: MainController,
    c5: MainController,
    c6: MainController,
    c7: MainController,
    r2: ControllerAction,
    r4: ControllerAction,
    r6: ControllerAction,
    r7: ControllerAction,
    id: i64,
    list: Vec<Automation>,
    ok3: bool,
    ok5: bool,
)
    requires
        c0.is_idle_spec(),
        c1.script@ == script_for(c0.app_model, UIEvent::AddedAutomation),
        c1.awaiting is None,
        model_after_event(c0.app_model, c1.app_model, UIEvent::AddedAutomation),
        MainController::advance_post(c1, c2, r2),
        MainController::receive_post(c2, c3, Reply::NewId(id), ok3),
        MainController::advance_post(c3, c4, r4),
        MainController::receive_post(c4, c5, Reply::Automations(list), ok5),
        MainController::advance_post(c5, c6, r6),
        MainController::advance_post(c6, c7, r7),
    ensures
        ok3 && ok5,
        r2 matches ControllerAction::Call(Request::AddAutomation(_)),
        r4 == ControllerAction::Call(Request::GetAutomations),
        r6 is Continue,
        c6.app_model.automation_id == id,
        c6.app_model.automations@ == list@,
        c6.app_model.current_index == index_of_id(list@, id),
        r7 == ControllerAction::Call(Request::GetAutomationTriggers(id)),
{
    assert(c1.script@[0] == Step::AddNewAutomation);
    assert(c3.script@ == c1.script@.drop_first());
    assert(c3.script@[0] == Step::RefreshAutomations);
    assert(c5.script@ == c3.script@.drop_first());
    assert(c5.script@[0] == Step::UpdateIndex);
    assert(c6.script@[0] == Step::RefreshTriggers);
}

/// Selecting an automation by its ID makes it the selected one, at its
/// position in the list, and the triggers and actions fetched next are its
/// own.
pub proof fn changing_automation_fetches_its_fields(
    c0: MainController,
    c1: MainController,
    c2: MainController,
    c3: MainController,
    c4: MainController,
    r2: ControllerAction,
    r4: ControllerAction,
    id: i64,
    position: int,
    triggers: Vec<AutomationTrigger>,
    ok3: bool,
)
    requires
        c0.is_idle_spec(),
        0 <= position < c0.app_model.automations@.len(),
        c0.app_model.automations@[position].id == id,
        c1.script@ == script_for(c0.app_model, UIEvent::ChangedAutomation(id)),
        c1.awaiting is None,
        model_after_event(c0.app_model, c1.app_model, UIEvent::ChangedAutomation(id)),
        MainController::advance_post(c1, c2, r2),
        MainController::receive_post(c2, c3, Reply::Triggers(triggers), ok3),
        MainController::advance_post(c3, c4, r4),
    ensures
        c1.app_model.automation_id == id,
        0 <= c1.app_model.current_index <= position,
        c1.app_model.automations@[c1.app_model.current_index as int].id == id,
        r2 == ControllerAction::Call(Request::GetAutomationTriggers(id)),
        ok3,
        c3.app_model.triggers@ == triggers@,
        r4 == ControllerAction::Call(Request::GetAutomationActions(id)),
{
    lemma_index_of_id(c0.app_model.automations@, id);
    assert(c0.app_model.automations@[position].id == id);
    assert(index_of_id(c0.app_model.automations@, id) >= 0);
    assert(c1.script@[0] == Step::RefreshTriggers);
    assert(c3.script@[0] == Step::RefreshActions);
}

/// Whether the event adds, updates or deletes a trigger.
pub open spec fn is_trigger_event(e: UIEvent) -> bool {
    e is AddedTrigger || e is UpdatedTrigger || e is DeletedTrigger
}

/// Whether the event adds, updates, moves or deletes an action.
pub open spec fn is_action_event(e: UIEvent) -> bool {
    e is AddedAction || e is UpdatedAction || e is MoveAction || e is DeletedAction
}

/// The request that carries out a trigger or action event for the
/// automation `automation_id`.
pub open spec fn change_request(e: UIEvent, automation_id: i64) -> Request {
    match e {
        UIEvent::AddedTrigger(t, d) => Request::AddTrigger(automation_id, t, d),
        UIEvent::UpdatedTrigger(id, d) => Request::UpdateTrigger(id, d),
        UIEvent::DeletedTrigger(id) => Request::DeleteTrigger(id),
        UIEvent::AddedAction(t, d) => Request::AddAction(automation_id, t, d),
        UIEvent::UpdatedAction(id, d) => Request::UpdateAction(id, d),
        UIEvent::MoveAction(id, dir) => Request::MoveAction(id, dir),
        UIEvent::DeletedAction(id) => Request::DeleteAction(id),
        _ => Request::GetAutomations,
    }
}

/// After an event that adds, updates or deletes a trigger, the controller
/// sends that change (whatever the daemon answers to it), then fetches the
/// selected automation's triggers, the model's triggers become the daemon's
/// reply, and the views are told the automation changed. An event on an action does the same with the
/// actions.
pub proof fn changing_a_field_refreshes_its_list(
    c0: MainController,
    c1: MainController,
    c2: MainController,
    c3: MainController,
    c4: MainController,
    c5: MainController,
    c6: MainController,
    r2: ControllerAction,
    r4: ControllerAction,
    r6: ControllerAction,
    event: UIEvent,
    reply3: Reply,
    reply: Reply,
    ok3: bool,
    ok5: bool,
)
    requires
        c0.is_idle_spec(),
        is_trigger_event(event) || is_action_event(event),
        c1.script@ == script_for(c0.app_model, event),
        c1.awaiting is None,
        model_after_event(c0.app_model, c1.app_model, event),
        MainController::advance_post(c1, c2, r2),
        MainController::receive_post(c2, c3, reply3, ok3),
        MainController::advance_post(c3, c4, r4),
        MainController::receive_post(c4, c5, reply, ok5),
        MainController::advance_post(c5, c6, r6),
    ensures
        r2 == ControllerAction::Call(change_request(event, c0.app_model.automation_id)),
        ok3,
        is_trigger_event(event) ==> r4 == ControllerAction::Call(Request::GetAutomationTriggers(c0.app_model.automation_id)),
        is_trigger_event(event) ==> (reply matches Reply::Triggers(l) ==> ok5 && c5.app_model.triggers@ == l@),
        is_action_event(event) ==> r4 == ControllerAction::Call(Request::GetAutomationActions(c0.app_model.automation_id)),
        is_action_event(event) ==> (reply matches Reply::Actions(l) ==> ok5 && c5.app_model.actions@ == l@),
        r6 == ControllerAction::Notify(ModelUpdate::AutomationUpdate),
        c5.app_model.automation_id == c0.app_model.automation_id,
{
    assert(c3.script@ == c1.script@.drop_first());
    assert(c5.script@ == c3.script@.drop_first());
}

/// Renaming the selected automation sends it back to the daemon under the
/// new name (its ID and activity unchanged), whatever the daemon answers
/// fetches the list of automations again, and the views are told the list
/// changed.
pub proof fn renaming_sends_the_new_name(
    c0: MainController,
    c1: MainController,
    c2: MainController,
    c3: MainController,
    c4: MainController,
    c5: MainController,
    c6: MainController,
    r2: ControllerAction,
    r4: ControllerAction,
    r6: ControllerAction,
    name: String,
    reply3: Reply,
    list: Vec<Automation>,
    ok3: bool,
    ok5: bool,
)
    requires
        c0.is_idle_spec(),
        c0.app_model.has_current(),
        c1.script@ == script_for(c0.app_model, UIEvent::UpdatedAutomationName(name)),
        c1.awaiting is None,
        model_after_event(c0.app_model, c1.app_model, UIEvent::UpdatedAutomationName(name)),
        MainController::advance_post(c1, c2, r2),
        MainController::receive_post(c2, c3, reply3, ok3),
        MainController::advance_post(c3, c4, r4),
        MainController::receive_post(c4, c5, Reply::Automations(list), ok5),
        MainController::advance_post(c5, c6, r6),
    ensures
        ({
            let a = c0.app_model.automations@[c0.app_model.current_index as int];
            r2 == ControllerAction::Call(Request::UpdateAutomation(Automation { id: a.id, name: name, active: a.active }))
        }),
        r4 == ControllerAction::Call(Request::GetAutomations),
        ok5,
        c5.app_model.automations@ == list@,
        r6 == ControllerAction::Notify(ModelUpdate::AutomationListUpdate),
{
    assert(c3.script@ == c1.script@.drop_first());
    assert(c5.script@ == c3.script@.drop_first());
}

/// Deleting the selected automation asks the daemon to delete it by its
/// ID; once the daemon has done so no automation is selected, and the list
/// of automations is fetched again.
pub proof fn deleting_clears_the_selection(
    c0: MainController,
    c1: MainController,
    c2: MainController,
    c3: MainController,
    c4: MainController,
    r2: ControllerAction,
    r4: ControllerAction,
    ok3: bool,
)
    requires
        c0.is_idle_spec(),
        c1.script@ == script_for(c0.app_model, UIEvent::DeletedAutomation()),
        c1.awaiting is None,
        model_after_event(c0.app_model, c1.app_model, UIEvent::DeletedAutomation()),
        MainController::advance_post(c1, c2, r2),
        MainController::receive_post(c2, c3, Reply::Done, ok3),
        MainController::advance_post(c3, c4, r4),
    ensures
        r2 == ControllerAction::Call(Request::DeleteAutomation(c0.app_model.automation_id)),
        ok3,
        c3.app_model.automation_id == -1,
        c3.app_model.current_index == -1,
        r4 == ControllerAction::Call(Request::GetAutomations),
{
    assert(c3.script@ == c1.script@.drop_first());
}

/// Running the selected automation by hand asks the daemon to run it as a
/// manual run, and nothing else.
pub proof fn running_runs_the_selected_automation(
    c0: MainController,
    c1: MainController,
    c2: MainController,
    c3: MainController,
    c4: MainController,
    r2: ControllerAction,
    r4: ControllerAction,
    reply3: Reply,
    ok3: bool,
)
    requires
        c0.is_idle_spec(),
        c1.script@ == script_for(c0.app_model, UIEvent::RanAutomation()),
        c1.awaiting is None,
        model_after_event(c0.app_model, c1.app_model, UIEvent::RanAutomation()),
        MainController::advance_post(c1, c2, r2),
        MainController::receive_post(c2, c3, reply3, ok3),
        MainController::advance_post(c3, c4, r4),
    ensures
        r2 == ControllerAction::Call(Request::RunAutomation(c0.app_model.automation_id, true)),
        r4 is Idle,
        same_model(c0.app_model, c4.app_model),
{
    assert(c3.script@ == c1.script@.drop_first());
}

} // verus!
