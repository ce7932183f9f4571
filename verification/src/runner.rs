//! Running the actions of an automation, one after the other. The runner
//! decides what each action does; carrying it out (starting a process,
//! sending a desktop notification) is left to its caller.

use vstd::prelude::*;
use crate::common::{APIError, AutomationAction, A_COMMAND, A_NOTIFICATION};
use crate::action_summary::{read_string_option, string_option};
use crate::json::{object_members, parse_object};
use crate::text::{is_white_space, split_whitespace, split_words, string_views, words_have_no_white_space};

verus! {

/// What carrying out one action amounts to.
pub enum ActionEffect {
    /// Nothing is to be done.
    Nothing,
    /// Run `program` with `args`, waiting for it to finish.
    RunCommand { program: String, args: Vec<String> },
    /// Show a desktop notification.
    Notify { title: String, contents: String },
}

/// What an `ActionEffect` says, with its strings as character sequences.
pub enum EffectView {
    Nothing,
    RunCommand(Seq<char>, Seq<Seq<char>>),
    Notify(Seq<char>, Seq<char>),
}

impl View for ActionEffect {
    type V = EffectView;

    open spec fn view(&self) -> EffectView {
        match self {
            ActionEffect::Nothing => EffectView::Nothing,
            ActionEffect::RunCommand { program, args } => EffectView::RunCommand(
                program@,
                string_views(args@),
            ),
            ActionEffect::Notify { title, contents } => EffectView::Notify(title@, contents@),
        }
    }
}

/// The effect of a command action: its command line split into words, the
/// first naming the program (empty when there is none) and the rest its
/// arguments; nothing when the command option is missing.
pub open spec fn command_effect(details: Seq<char>) -> EffectView {
    match string_option(object_members(details), "command"@) {
        None => EffectView::Nothing,
        Some(line) => {
            let words = split_words(line);
            if words.len() == 0 {
                EffectView::RunCommand(Seq::empty(), Seq::empty())
            } else {
                EffectView::RunCommand(words[0], words.drop_first())
            }
        },
    }
}

/// The effect of a notification action: a notification titled
/// "Notification" with the entered contents, unless they are missing or
/// empty.
pub open spec fn notification_effect(details: Seq<char>) -> EffectView {
    match string_option(object_members(details), "contents"@) {
        Some(c) => if c.len() > 0 {
            EffectView::Notify("Notification"@, c)
        } else {
            EffectView::Nothing
        },
        None => EffectView::Nothing,
    }
}

/// The effect of running an action.
pub open spec fn action_effect(action_type: i64, details: Seq<char>) -> EffectView {
    if action_type == A_COMMAND {
        command_effect(details)
    } else if action_type == A_NOTIFICATION {
        notification_effect(details)
    } else {
        EffectView::Nothing
    }
}

/// A command action runs its command line split into words: the first
/// word (never empty, holding no white space) names the program and the
/// remaining words are its arguments, so that together they are the words
/// of the line. A line without words runs the empty program with no
/// arguments, and a missing command runs nothing.
pub proof fn command_runs_its_words(details: Seq<char>)
    ensures
        match string_option(object_members(details), "command"@) {
            None => action_effect(A_COMMAND, details) == EffectView::Nothing,
            Some(line) => {
                &&& action_effect(A_COMMAND, details) is RunCommand
                &&& split_words(line).len() > 0 ==> (action_effect(A_COMMAND, details) matches
                    EffectView::RunCommand(program, args)
                    && seq![program] + args == split_words(line)
                    && program.len() > 0
                    && forall|j: int| 0 <= j < program.len() ==> !is_white_space(#[trigger] program[j]))
                &&& split_words(line).len() == 0 ==>
                    action_effect(A_COMMAND, details) == EffectView::RunCommand(Seq::empty(), Seq::empty())
            },
        },
{
    match string_option(object_members(details), "command"@) {
        None => {},
        Some(line) => {
            let w = split_words(line);
            words_have_no_white_space(line);
            if w.len() > 0 {
                assert(seq![w[0]] + w.drop_first() =~= w);
                assert(w[0] == split_words(line)[0]);
            }
        },
    }
}

/// A notification action shows a notification titled "Notification" with
/// its text when the text is there and not empty, and does nothing
/// otherwise.
pub proof fn notification_shows_its_text(details: Seq<char>)
    ensures
        match string_option(object_members(details), "contents"@) {
            Some(c) => c.len() > 0 ==> action_effect(A_NOTIFICATION, details)
                == EffectView::Notify("Notification"@, c),
            None => true,
        },
        action_effect(A_NOTIFICATION, details) is Notify <==> (match string_option(object_members(details), "contents"@) {
            Some(c) => c.len() > 0,
            None => false,
        }),
{
}

/// Works out the effect of running one action.
pub fn effect_of(action: &AutomationAction) -> (res: ActionEffect)
    ensures
        res@ == action_effect(action.action_type, action.details@),
{
    if action.action_type == A_COMMAND {
        let root = parse_object(action.details.as_str());
        match read_string_option(&root, "command") {
            None => ActionEffect::Nothing,
            Some(line) => {
                let mut words = split_whitespace(line.as_str());
                if words.len() == 0 {
                    let args: Vec<String> = Vec::new();
                    assert(string_views(args@) =~= Seq::empty());
                    ActionEffect::RunCommand { program: String::new(), args }
                } else {
                    let ghost w = string_views(words@);
                    let program = words.remove(0);
                    assert(string_views(words@) =~= w.drop_first());
                    ActionEffect::RunCommand { program, args: words }
                }
            },
        }
    } else if action.action_type == A_NOTIFICATION {
        let root = parse_object(action.details.as_str());
        match read_string_option(&root, "contents") {
            Some(c) => if !c.as_str().is_empty() {
                ActionEffect::Notify { title: String::from_str("Notification"), contents: c }
            } else {
                ActionEffect::Nothing
            },
            None => ActionEffect::Nothing,
        }
    } else {
        ActionEffect::Nothing
    }
}

/// Runs actions sequentially.
pub struct ActionsRunner {
    pub actions: Vec<AutomationAction>,
    pub current: i64,
}

impl ActionsRunner {
    /// Whether the runner has an action left: `current` indexes one.
    pub open spec fn has_next_spec(&self) -> bool {
        0 <= self.current < self.actions@.len()
    }

    /// The effects of running the actions from `from` on, in order.
    pub open spec fn effects_from(actions: Seq<AutomationAction>, from: int) -> Seq<EffectView>
        decreases actions.len() - from,
    {
        if from < 0 || from >= actions.len() {
            Seq::empty()
        } else {
            seq![action_effect(actions[from].action_type, actions[from].details@)]
                + Self::effects_from(actions, from + 1)
        }
    }

    /// Constructs a new ActionRunner from the provided list
    /// of actions.
    pub fn new(actions: Vec<AutomationAction>) -> (res: Self)
        ensures
            res.actions@ == actions@,
            res.current == 0,
    {
        Self { actions, current: 0 }
    }

    /// Returns whether or not this runner has any more actions
    /// to run.
    pub fn has_next(&self) -> (res: bool)
        ensures
            res == self.has_next_spec(),
    {
        self.current >= 0 && (self.current as u64) < (self.actions.len() as u64)
    }

    /// Runs the next action in the list of actions the struct was
    /// initialised with, and moves past it. Returns whether or not the
    /// action was run successfully (a command was started or a
    /// notification sent), with what running it amounts to. An action that
    /// cannot be run (of an unknown kind, or missing its command or its
    /// notification text) does nothing and is skipped, so that the actions
    /// after it still run.
    pub fn step(&mut self) -> (res: (bool, ActionEffect))
        requires
            old(self).actions@.len() <= i64::MAX,
        ensures
            final(self).actions@ == old(self).actions@,
            !old(self).has_next_spec() ==> {
                &&& final(self).current == old(self).current
                &&& !res.0
                &&& res.1@ == EffectView::Nothing
            },
            old(self).has_next_spec() ==> {
                let a = old(self).actions@[old(self).current as int];
                &&& final(self).current == old(self).current + 1
                &&& res.0 == (action_effect(a.action_type, a.details@) != EffectView::Nothing)
                &&& res.1@ == action_effect(a.action_type, a.details@)
            },
    {
        if !self.has_next() {
            return (false, ActionEffect::Nothing);
        }
        let index = self.current as u64;
        assert(self.has_next_spec());
        assert(index as int == self.current as int);
        let len = self.actions.len();
        assert(index < len);
        let i = index as usize;
        assert(i as int == self.current as int);
        let action = &self.actions[i];
        let effect = effect_of(action);
        let ok = match effect {
            ActionEffect::Nothing => false,
            _ => true,
        };
        self.current = self.current + 1;
        (ok, effect)
    }

    /// Runs all of the remaining actions, regardless of whether or not
    /// previous actions failed, and returns what running each amounts to,
    /// in order.
    pub fn run_all(&mut self) -> (res: Vec<ActionEffect>)
        requires
            old(self).actions@.len() <= i64::MAX,
        ensures
            final(self).actions@ == old(self).actions@,
            res@.map_values(|e: ActionEffect| e@) == Self::effects_from(old(self).actions@, old(self).current as int),
            old(self).has_next_spec() ==> final(self).current == old(self).actions@.len(),
            !old(self).has_next_spec() ==> final(self).current == old(self).current,
    {
        let ghost start = self.current as int;
        let ghost acts = self.actions@;
        let mut effects: Vec<ActionEffect> = Vec::new();
        if !self.has_next() {
            assert(effects@.map_values(|e: ActionEffect| e@) =~= Self::effects_from(acts, start));
            return effects;
        }
        while self.has_next()
            invariant
                self.actions@ == acts,
                acts.len() <= i64::MAX,
                0 <= start <= self.current <= acts.len(),
                effects@.map_values(|e: ActionEffect| e@) + Self::effects_from(acts, self.current as int)
                    == Self::effects_from(acts, start),
            decreases acts.len() - self.current,
        {
            let ghost before = effects@.map_values(|e: ActionEffect| e@);
            let ghost cur = self.current as int;
            let (_, effect) = self.step();
            effects.push(effect);
            assert(effects@.map_values(|e: ActionEffect| e@) =~= before.push(effect@));
            assert(Self::effects_from(acts, cur) == seq![effect@] + Self::effects_from(acts, cur + 1));
            assert(before + Self::effects_from(acts, cur) =~= before.push(effect@) + Self::effects_from(acts, cur + 1));
        }
        assert(Self::effects_from(acts, self.current as int) =~= Seq::empty());
        assert(effects@.map_values(|e: ActionEffect| e@) =~= Self::effects_from(acts, start));
        effects
    }
}

/// The details of the notification sent when an automation is run by
/// hand.
pub open spec fn manual_run_details_spec(name: Seq<char>) -> Seq<char> {
    "{\"contents\":{\"string\":\"Successfully manually ran automation \\\""@ + name + "\\\"\"}}"@
}

/// Writes the details of the notification sent when an automation is run
/// by hand. The name is written as it is.
pub fn manual_run_details(automation_name: &str) -> (res: String)
    ensures
        res@ == manual_run_details_spec(automation_name@),
{
    let mut s = String::from_str("{\"contents\":{\"string\":\"Successfully manually ran automation \\\"");
    s.append(automation_name);
    s.append("\\\"\"}}");
    s
}

/// The actions run when an automation is run: its own, followed, when run
/// by hand, by a notification saying so.
pub fn run_automation_actions(
    actions: Vec<AutomationAction>,
    automation_name: &str,
    is_manual: bool,
) -> (res: Vec<AutomationAction>)
    ensures
        !is_manual ==> res@ == actions@,
        is_manual ==> res@.len() == actions@.len() + 1,
        is_manual ==> res@.take(actions@.len() as int) == actions@,
        is_manual ==> res@.last().id == -1,
        is_manual ==> res@.last().action_type == A_NOTIFICATION,
        is_manual ==> res@.last().details@ == manual_run_details_spec(automation_name@),
{
    let mut actions = actions;
    if is_manual {
        let ghost before = actions@;
        actions.push(AutomationAction {
            id: -1,
            action_type: A_NOTIFICATION,
            details: manual_run_details(automation_name),
        });
        assert(actions@.take(before.len() as int) =~= before);
    }
    actions
}

/// Answers a request from the outcome of the database work behind it:
/// the value on success, and `DBAccessError` on any failure.
pub fn to_api_result<T, E>(result: Result<T, E>) -> (res: Result<T, APIError>)
    ensures
        result is Ok ==> res == Ok::<T, APIError>(result->Ok_0),
        result is Err ==> res == Err::<T, APIError>(APIError::DBAccessError),
{
    match result {
        Ok(v) => Ok(v),
        Err(_) => Err(APIError::DBAccessError),
    }
}

} // verus!
