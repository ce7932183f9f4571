//! The state behind the menu that creates and edits triggers and actions
//! ("fields"): which kind is selected, which of its options have been
//! filled in, the JSON each gave, and whether the menu can be submitted.

use vstd::prelude::*;
use crate::common::{
    action_get_option_details, action_options_spec, action_to_name, action_name_spec,
    trigger_get_option_details, trigger_options_spec, trigger_to_name, trigger_name_spec,
    option_views, OptionDetails, OptionDetailsView, ACTION_MAX, TRIGGER_MAX,
};
use crate::json::{
    find_member, find_member_text, json_object_text, object_members, pair_views, parse_object, write_json_object,
    key_less, keys_ascending, all_canonical_values, lemma_find_ascending,
};
use crate::message::UIEvent;
use crate::pickers::{
    create_picker, lemma_written_is_canonical, picker_completed, picker_json, picker_summary, written_by_picker,
    LocalNow, Picker,
};
use crate::text::string_views;

verus! {

/// The type of field being created/edited by FieldMenu.
#[derive(Clone, Copy, Debug, PartialEq, Eq, Structural)]
pub enum FieldType {
    Trigger,
    Action,
}

/// The action being performed by FieldMenu on the provided FieldType.
#[derive(Clone, Copy, Debug, PartialEq, Eq, Structural)]
pub enum FieldAction {
    Add,
    Edit,
}

/// Contains details about the field which is to be edited. This
/// parameter to FieldMenu is *not* required if you are creating
/// a new field.
#[derive(Debug, PartialEq, Eq)]
pub struct FieldEditDetails {
    pub id: i64,
    pub field_type: i64,
    pub details: String,
}

impl Clone for FieldEditDetails {
    fn clone(&self) -> (res: Self)
        ensures
            res == *self,
    {
        FieldEditDetails { id: self.id, field_type: self.field_type, details: self.details.clone() }
    }
}

/// The options of a field kind.
pub open spec fn field_options(field_type: FieldType, kind: i64) -> Seq<OptionDetailsView> {
    match field_type {
        FieldType::Trigger => trigger_options_spec(kind),
        FieldType::Action => action_options_spec(kind),
    }
}

/// Returns the options of a field kind.
pub fn get_field_options(field_type: FieldType, kind: i64) -> (res: Vec<OptionDetails>)
    ensures
        option_views(res@) == field_options(field_type, kind),
{
    match field_type {
        FieldType::Trigger => trigger_get_option_details(kind),
        FieldType::Action => action_get_option_details(kind),
    }
}

/// The number of indices below `k` whose option is mandatory and not
/// completed.
pub open spec fn missing_upto(mandatory: Seq<bool>, completed: Seq<bool>, k: int) -> nat
    decreases k,
{
    if k <= 0 {
        0
    } else {
        missing_upto(mandatory, completed, k - 1)
            + if mandatory[k - 1] && !completed[k - 1] { 1nat } else { 0nat }
    }
}

/// Whether every mandatory option below `k` is completed.
pub open spec fn all_mandatory_done(mandatory: Seq<bool>, completed: Seq<bool>, k: int) -> bool {
    forall|j: int| 0 <= j < k ==> #[trigger] mandatory[j] ==> completed[j]
}

proof fn lemma_missing_bound(mandatory: Seq<bool>, completed: Seq<bool>, k: int)
    requires
        k >= 0,
    ensures
        missing_upto(mandatory, completed, k) <= k,
    decreases k,
{
    if k > 0 {
        lemma_missing_bound(mandatory, completed, k - 1);
    }
}

proof fn lemma_missing_zero(mandatory: Seq<bool>, completed: Seq<bool>, k: int)
    requires
        k >= 0,
    ensures
        (missing_upto(mandatory, completed, k) == 0) <==> all_mandatory_done(mandatory, completed, k),
    decreases k,
{
    if k > 0 {
        lemma_missing_zero(mandatory, completed, k - 1);
    }
}

proof fn lemma_missing_update(mandatory: Seq<bool>, completed: Seq<bool>, i: int, b: bool, k: int)
    requires
        0 <= i < completed.len(),
        mandatory.len() == completed.len(),
        0 <= k <= completed.len(),
    ensures
        k <= i ==> missing_upto(mandatory, completed.update(i, b), k) == missing_upto(mandatory, completed, k),
        k > i ==> missing_upto(mandatory, completed.update(i, b), k) + (if mandatory[i] && !completed[i] { 1int } else { 0int })
            == missing_upto(mandatory, completed, k) + (if mandatory[i] && !b { 1int } else { 0int }),
    decreases k,
{
    if k > 0 {
        lemma_missing_update(mandatory, completed, i, b, k - 1);
    }
}

proof fn lemma_missing_prefix(m1: Seq<bool>, c1: Seq<bool>, m2: Seq<bool>, c2: Seq<bool>, k: int)
    requires
        0 <= k <= m1.len(),
        k <= m2.len(),
        k <= c1.len(),
        k <= c2.len(),
        forall|j: int| 0 <= j < k ==> m1[j] == m2[j] && c1[j] == c2[j],
    ensures
        missing_upto(m1, c1, k) == missing_upto(m2, c2, k),
    decreases k,
{
    if k > 0 {
        lemma_missing_prefix(m1, c1, m2, c2, k - 1);
    }
}

/// The (option name, option JSON) pairs the menu submits: the options of
/// the selected kind, each with the JSON recorded for it.
pub open spec fn option_pairs(options: Seq<OptionDetailsView>, jsons: Seq<Seq<char>>) -> Seq<(Seq<char>, Seq<char>)> {
    let n = if options.len() < jsons.len() { options.len() } else { jsons.len() };
    Seq::new(n, |i: int| (options[i].json_name, jsons[i]))
}

/// The option names of every kind are in increasing order, so the pairs
/// the menu submits are in the order `serde_json` writes them.
proof fn lemma_option_pairs_ascending(field_type: FieldType, kind: i64, jsons: Seq<Seq<char>>)
    ensures
        keys_ascending(option_pairs(field_options(field_type, kind), jsons)),
{
    reveal_strlit("frequency");
    reveal_strlit("start-date");
    reveal_strlit("days-active");
    reveal_strlit("time");
    let p = option_pairs(field_options(field_type, kind), jsons);
    assert(key_less("frequency"@, "start-date"@));
    assert(key_less("days-active"@, "time"@));
    assert forall|i: int, j: int| 0 <= i < j < p.len() implies key_less(#[trigger] p[i].0, #[trigger] p[j].0) by {
        assert(i == 0 && j == 1);
    }
}

/// The JSON text given when an option is filled in from a default JSON:
/// the default object's member of the option's name, when editing.
pub open spec fn prefill(action: FieldAction, defaults: Seq<(Seq<char>, Seq<char>)>, name: Seq<char>) -> Option<Seq<char>> {
    if action == FieldAction::Edit {
        find_member(defaults, name)
    } else {
        None
    }
}

/// A menu to create or edit a trigger or an action. A kind is picked for
/// the field, which unlocks the options of that kind; each option is
/// filled in with a picker. The menu can be submitted once every mandatory
/// option is completed.
pub struct FieldMenu {
    pub field_type: FieldType,
    pub action: FieldAction,
    pub field_to_edit: Option<FieldEditDetails>,
    pub selected_type: i64,
    pub mandatory: Vec<bool>,
    pub completed: Vec<bool>,
    pub json_options: Vec<String>,
    pub summaries: Vec<String>,
    pub mandatory_options_left: u64,
}

impl FieldMenu {
    /// The options of the selected kind.
    pub open spec fn options(&self) -> Seq<OptionDetailsView> {
        field_options(self.field_type, self.selected_type)
    }

    /// The menu's invariant: one entry per option of the selected kind in
    /// each list, and `mandatory_options_left` counting the mandatory
    /// options that are not completed.
    pub open spec fn wf(&self) -> bool {
        let n = self.options().len();
        &&& self.mandatory@.len() == n
        &&& self.completed@.len() == n
        &&& self.json_options@.len() == n
        &&& self.summaries@.len() == n
        &&& forall|i: int| 0 <= i < n ==> self.mandatory@[i] == #[trigger] self.options()[i].mandatory
        &&& self.mandatory_options_left == missing_upto(self.mandatory@, self.completed@, n as int)
        &&& self.action == FieldAction::Edit ==> self.field_to_edit is Some
    }

    /// What filling in the options from `defaults` at `now` leaves for
    /// option `i`.
    pub open spec fn filled_from(&self, defaults: Seq<(Seq<char>, Seq<char>)>, now: LocalNow) -> bool {
        let opts = self.options();
        forall|i: int| 0 <= i < opts.len() ==> {
            let pf = #[trigger] prefill(self.action, defaults, opts[i].json_name);
            &&& self.completed@[i] == (pf is Some && picker_completed(opts[i].opt_type, pf->0, now))
            &&& self.json_options@[i]@ == if self.completed@[i] {
                picker_json(opts[i].opt_type, pf->0, now)
            } else {
                Seq::<char>::empty()
            }
            &&& self.summaries@[i]@ == if pf is Some {
                picker_summary(opts[i].opt_type, pf->0, now)
            } else {
                Seq::<char>::empty()
            }
        }
    }

    /// Whether every option that `defaults` fills in with the JSON a
    /// completed picker of its kind gave is completed with that same JSON.
    pub open spec fn keeps_written(&self, defaults: Seq<(Seq<char>, Seq<char>)>) -> bool {
        let opts = self.options();
        forall|i: int| 0 <= i < opts.len() && (#[trigger] prefill(self.action, defaults, opts[i].json_name)) is Some
            && written_by_picker(opts[i].opt_type, prefill(self.action, defaults, opts[i].json_name)->0)
            ==> self.completed@[i] && self.json_options@[i]@ == prefill(self.action, defaults, opts[i].json_name)->0
    }

    /// Whether every option is completed with the JSON a completed picker
    /// of its kind gave.
    pub open spec fn all_written(&self) -> bool {
        forall|i: int| 0 <= i < self.options().len() ==> #[trigger] self.completed@[i]
            && written_by_picker(self.options()[i].opt_type, self.json_options@[i]@)
    }

    /// Resets the options for the selected kind, and fills in any option
    /// that the default object members hold when the field is being edited.
    pub fn update_options_group(&mut self, defaults: &Vec<(String, String)>, now: &LocalNow)
        requires
            old(self).action == FieldAction::Edit ==> old(self).field_to_edit is Some,
        ensures
            final(self).wf(),
            final(self).filled_from(pair_views(defaults@), *now),
            final(self).keeps_written(pair_views(defaults@)),
            final(self).field_type == old(self).field_type,
            final(self).action == old(self).action,
            final(self).field_to_edit == old(self).field_to_edit,
            final(self).selected_type == old(self).selected_type,
    {
        let options = get_field_options(self.field_type, self.selected_type);
        let ghost opts = option_views(options@);
        let ghost dm = pair_views(defaults@);
        let mut mandatory: Vec<bool> = Vec::new();
        let mut completed: Vec<bool> = Vec::new();
        let mut jsons: Vec<String> = Vec::new();
        let mut summaries: Vec<String> = Vec::new();
        let mut left: u64 = 0;
        let n = options.len();
        let mut i: usize = 0;
        while i < n
            invariant
                n == options@.len(),
                opts == option_views(options@),
                opts == field_options(self.field_type, self.selected_type),
                pair_views(defaults@) == dm,
                i <= n,
                mandatory@.len() == i,
                completed@.len() == i,
                jsons@.len() == i,
                summaries@.len() == i,
                left == missing_upto(mandatory@, completed@, i as int),
                forall|j: int| 0 <= j < i ==> mandatory@[j] == #[trigger] opts[j].mandatory,
                forall|j: int| 0 <= j < i ==> {
                    let pf = #[trigger] prefill(self.action, dm, opts[j].json_name);
                    &&& completed@[j] == (pf is Some && picker_completed(opts[j].opt_type, pf->0, *now))
                    &&& jsons@[j]@ == if completed@[j] {
                        picker_json(opts[j].opt_type, pf->0, *now)
                    } else {
                        Seq::<char>::empty()
                    }
                    &&& summaries@[j]@ == if pf is Some {
                        picker_summary(opts[j].opt_type, pf->0, *now)
                    } else {
                        Seq::<char>::empty()
                    }
                    &&& (pf is Some && written_by_picker(opts[j].opt_type, pf->0)) ==> completed@[j] && jsons@[j]@ == pf->0
                },
            decreases n - i,
        {
            let option = &options[i];
            assert(opts[i as int] == option@);
            let ghost pf = prefill(self.action, dm, opts[i as int].json_name);
            let mut done = false;
            let mut json = String::new();
            let mut summary = String::new();
            if self.action == FieldAction::Edit {
                if let Some(text) = find_member_text(defaults, option.json_name.as_str()) {
                    let picker = create_picker(option.opt_type, text.as_str(), now);
                    summary = picker.get_summary_text();
                    if picker.is_now_completed() {
                        json = picker.get_json();
                        done = true;
                    }
                }
            }
            proof {
                lemma_missing_bound(mandatory@, completed@, i as int);
                lemma_missing_prefix(mandatory@, completed@, mandatory@.push(option.mandatory), completed@.push(done), i as int);
            }
            mandatory.push(option.mandatory);
            completed.push(done);
            jsons.push(json);
            summaries.push(summary);
            if option.mandatory && !done {
                left = left + 1;
            }
            i = i + 1;
        }
        self.mandatory = mandatory;
        self.completed = completed;
        self.json_options = jsons;
        self.summaries = summaries;
        self.mandatory_options_left = left;
    }

    /// Creates the state of a new FieldMenu for the type of field, the
    /// action to perform on it, and, if editing, the field to edit. When
    /// editing, the kind is that of the field and its options are filled
    /// in from its details; when adding, the first kind is selected.
    pub fn new(field_type: FieldType, action: FieldAction, field_to_edit: Option<FieldEditDetails>, now: &LocalNow) -> (res: FieldMenu)
        requires
            action == FieldAction::Edit ==> field_to_edit is Some,
        ensures
            res.wf(),
            res.field_type == field_type,
            res.action == action,
            res.field_to_edit == field_to_edit,
            action == FieldAction::Edit ==> res.selected_type == field_to_edit->0.field_type,
            action == FieldAction::Edit ==> res.filled_from(object_members(field_to_edit->0.details@), *now),
            action == FieldAction::Add ==> res.selected_type == 1,
            action == FieldAction::Add ==> res.filled_from(Seq::empty(), *now),
            // Editing a field whose details a menu submitted, with every
            // option filled in by a picker, fills in the options as they
            // were: saving without changes submits the same details.
            forall|m: FieldMenu| #[trigger] m.options_json_spec() == field_to_edit->0.details@
                && action == FieldAction::Edit && m.wf() && m.field_type == field_type
                && m.selected_type == field_to_edit->0.field_type && m.all_written()
                ==> res.options_json_spec() == field_to_edit->0.details@
                    && res.json_options@.len() == m.json_options@.len()
                    && (forall|i: int| 0 <= i < res.json_options@.len() ==> #[trigger] res.completed@[i]
                        && res.json_options@[i]@ == m.json_options@[i]@),
    {
        let selected_type = match action {
            FieldAction::Edit => match &field_to_edit {
                Some(f) => f.field_type,
                None => 1,
            },
            FieldAction::Add => 1,
        };
        let details = match action {
            FieldAction::Edit => match &field_to_edit {
                Some(f) => f.details.clone(),
                None => String::new(),
            },
            FieldAction::Add => String::new(),
        };
        let mut menu = FieldMenu {
            field_type,
            action,
            field_to_edit,
            selected_type,
            mandatory: Vec::new(),
            completed: Vec::new(),
            json_options: Vec::new(),
            summaries: Vec::new(),
            mandatory_options_left: 0,
        };
        let defaults: Vec<(String, String)> = match action {
            FieldAction::Edit => parse_object(details.as_str()),
            FieldAction::Add => {
                let v: Vec<(String, String)> = Vec::new();
                assert(pair_views(v@) =~= Seq::empty());
                v
            },
        };
        menu.update_options_group(&defaults, now);
        proof {
            assert forall|m: FieldMenu| #[trigger] m.options_json_spec() == field_to_edit->0.details@
                && action == FieldAction::Edit && m.wf() && m.field_type == field_type
                && m.selected_type == field_to_edit->0.field_type && m.all_written()
                implies menu.options_json_spec() == field_to_edit->0.details@
                    && menu.json_options@.len() == m.json_options@.len()
                    && (forall|i: int| 0 <= i < menu.json_options@.len() ==> #[trigger] menu.completed@[i]
                        && menu.json_options@[i]@ == m.json_options@[i]@) by {
                let opts = m.options();
                let jsons = string_views(m.json_options@);
                let pairs = option_pairs(opts, jsons);
                assert(opts == menu.options());
                lemma_option_pairs_ascending(field_type, m.selected_type, jsons);
                assert forall|i: int| 0 <= i < pairs.len() implies crate::json::canonical_value(#[trigger] pairs[i].1) by {
                    assert(m.completed@[i]);
                    assert(pairs[i].1 == m.json_options@[i]@);
                    lemma_written_is_canonical(opts[i].opt_type, m.json_options@[i]@);
                }
                assert(pair_views(defaults@) == pairs);
                assert forall|i: int| 0 <= i < menu.json_options@.len() implies #[trigger] menu.completed@[i]
                    && menu.json_options@[i]@ == m.json_options@[i]@ by {
                    lemma_find_ascending(pairs, i);
                    assert(pairs[i].0 == opts[i].json_name);
                    assert(prefill(action, pairs, opts[i].json_name) == Some(m.json_options@[i]@));
                    assert(m.completed@[i]);
                }
                assert(menu.json_options@.len() == m.json_options@.len());
                assert forall|i: int| 0 <= i < jsons.len() implies #[trigger] string_views(menu.json_options@)[i] == jsons[i] by {
                    assert(menu.completed@[i]);
                }
                assert(string_views(menu.json_options@) =~= jsons);
            }
        }
        menu
    }

    /// Selects the kind at `row` (0 is the first kind) and resets its
    /// options.
    pub fn select_type(&mut self, row: u32, now: &LocalNow)
        requires
            old(self).wf(),
        ensures
            final(self).wf(),
            final(self).selected_type == row as i64 + 1,
            final(self).filled_from(Seq::empty(), *now),
            final(self).field_type == old(self).field_type,
            final(self).action == old(self).action,
            final(self).field_to_edit == old(self).field_to_edit,
    {
        self.selected_type = row as i64 + 1;
        let none: Vec<(String, String)> = Vec::new();
        assert(pair_views(none@) =~= Seq::empty());
        self.update_options_group(&none, now);
    }

    /// Records what the picker of option `index` gave when its submit
    /// button was pressed: whether it is completed, its summary, and its
    /// JSON (the empty text when it is not completed), keeping the count of
    /// mandatory options left in step.
    pub fn submit_picker(&mut self, index: usize, picker: &Picker)
        requires
            old(self).wf(),
            index < old(self).completed@.len(),
        ensures
            final(self).wf(),
            final(self).completed@ == old(self).completed@.update(index as int, picker.completed_spec()),
            final(self).json_options@.len() == old(self).json_options@.len(),
            final(self).summaries@.len() == old(self).summaries@.len(),
            final(self).json_options@[index as int]@ == if picker.completed_spec() {
                picker.json_spec()
            } else {
                Seq::<char>::empty()
            },
            final(self).summaries@[index as int]@ == picker.summary_spec(),
            forall|j: int| 0 <= j < old(self).json_options@.len() && j != index ==>
                #[trigger] final(self).json_options@[j] == old(self).json_options@[j]
                && final(self).summaries@[j] == old(self).summaries@[j],
            final(self).mandatory@ == old(self).mandatory@,
            final(self).field_type == old(self).field_type,
            final(self).action == old(self).action,
            final(self).field_to_edit == old(self).field_to_edit,
            final(self).selected_type == old(self).selected_type,
    {
        let ghost n = self.options().len() as int;
        let now_completed = picker.is_now_completed();
        let was_completed = self.completed[index];
        let option_mandatory = self.mandatory[index];
        proof {
            lemma_missing_update(self.mandatory@, self.completed@, index as int, now_completed, n);
            lemma_missing_bound(self.mandatory@, self.completed@, n);
        }
        if !was_completed && now_completed && option_mandatory {
            self.mandatory_options_left = self.mandatory_options_left - 1;
        } else if was_completed && !now_completed && option_mandatory {
            self.mandatory_options_left = self.mandatory_options_left + 1;
        }
        self.completed.set(index, now_completed);
        self.summaries.set(index, picker.get_summary_text());
        if now_completed {
            self.json_options.set(index, picker.get_json());
        } else {
            self.json_options.set(index, String::new());
        }
    }

    /// Returns whether the submit button is enabled: no mandatory option
    /// is left to be completed.
    pub fn update_submit_button(&self) -> (res: bool)
        requires
            self.wf(),
        ensures
            res == (self.mandatory_options_left == 0),
            res == all_mandatory_done(self.mandatory@, self.completed@, self.options().len() as int),
    {
        proof {
            lemma_missing_zero(self.mandatory@, self.completed@, self.options().len() as int);
        }
        self.mandatory_options_left == 0
    }

    /// The JSON the menu submits.
    pub open spec fn options_json_spec(&self) -> Seq<char> {
        json_object_text(option_pairs(self.options(), string_views(self.json_options@)))
    }

    /// Constructs the final options JSON: an object with the JSON of each
    /// option under the option's name.
    pub fn options_json(&self) -> (res: String)
        ensures
            res@ == self.options_json_spec(),
    {
        let options = get_field_options(self.field_type, self.selected_type);
        let ghost opts = option_views(options@);
        let n = if options.len() < self.json_options.len() { options.len() } else { self.json_options.len() };
        let mut pairs: Vec<(String, String)> = Vec::new();
        let mut i: usize = 0;
        while i < n
            invariant
                i <= n,
                n <= options@.len(),
                n <= self.json_options@.len(),
                opts == option_views(options@),
                pairs@.len() == i,
                forall|j: int| 0 <= j < i ==> #[trigger] pair_views(pairs@)[j] == (opts[j].json_name, self.json_options@[j]@),
            decreases n - i,
        {
            assert(opts[i as int] == options@[i as int]@);
            let ghost before = pairs@;
            let name = options[i].json_name.clone();
            let json = self.json_options[i].clone();
            assert(name@ == opts[i as int].json_name);
            pairs.push((name, json));
            assert forall|j: int| 0 <= j < i + 1 implies #[trigger] pair_views(pairs@)[j] == (opts[j].json_name, self.json_options@[j]@) by {
                if j < i {
                    assert(pairs@[j] == before[j]);
                    assert(pair_views(before)[j] == (opts[j].json_name, self.json_options@[j]@));
                } else {
                    assert(pairs@[j] == (name, json));
                }
            }
            i = i + 1;
        }
        assert(pair_views(pairs@) =~= option_pairs(self.options(), string_views(self.json_options@)));
        write_json_object(&pairs)
    }

    /// The event that submitting the menu sends: the new field of the
    /// selected kind with the options JSON when adding, or the update of
    /// the edited field's details when editing.
    pub fn submit_event(&self) -> (res: UIEvent)
        requires
            self.wf(),
        ensures
            self.action == FieldAction::Add && self.field_type == FieldType::Trigger ==> (
                res matches UIEvent::AddedTrigger(t, j) && t == self.selected_type && j@ == self.options_json_spec()),
            self.action == FieldAction::Add && self.field_type == FieldType::Action ==> (
                res matches UIEvent::AddedAction(t, j) && t == self.selected_type && j@ == self.options_json_spec()),
            self.action == FieldAction::Edit && self.field_type == FieldType::Trigger ==> (
                res matches UIEvent::UpdatedTrigger(id, j) && id == self.field_to_edit->0.id && j@ == self.options_json_spec()),
            self.action == FieldAction::Edit && self.field_type == FieldType::Action ==> (
                res matches UIEvent::UpdatedAction(id, j) && id == self.field_to_edit->0.id && j@ == self.options_json_spec()),
    {
        let json = self.options_json();
        match self.action {
            FieldAction::Add => match self.field_type {
                FieldType::Trigger => UIEvent::AddedTrigger(self.selected_type, json),
                FieldType::Action => UIEvent::AddedAction(self.selected_type, json),
            },
            FieldAction::Edit => {
                let id = match &self.field_to_edit {
                    Some(f) => f.id,
                    None => 0,
                };
                match self.field_type {
                    FieldType::Trigger => UIEvent::UpdatedTrigger(id, json),
                    FieldType::Action => UIEvent::UpdatedAction(id, json),
                }
            },
        }
    }

} // impl FieldMenu

/// The submit button is enabled exactly when every mandatory option of
/// the selected kind has been completed.
pub proof fn submit_enabled_iff_mandatory_done(menu: FieldMenu)
    requires
        menu.wf(),
    ensures
        (menu.mandatory_options_left == 0) <==> (forall|i: int| 0 <= i < menu.options().len() ==>
            #[trigger] menu.options()[i].mandatory ==> menu.completed@[i]),
{
    let n = menu.options().len() as int;
    lemma_missing_zero(menu.mandatory@, menu.completed@, n);
    if all_mandatory_done(menu.mandatory@, menu.completed@, n) {
        assert forall|i: int| 0 <= i < n && #[trigger] menu.options()[i].mandatory implies menu.completed@[i] by {
            assert(menu.mandatory@[i] == menu.options()[i].mandatory);
        }
    }
    if forall|i: int| 0 <= i < n ==> (#[trigger] menu.options()[i].mandatory ==> menu.completed@[i]) {
        assert forall|j: int| 0 <= j < n && #[trigger] menu.mandatory@[j] implies menu.completed@[j] by {
            assert(menu.mandatory@[j] == menu.options()[j].mandatory);
        }
    }
}

/// The title of the menu's dialog.
pub open spec fn dialog_title_spec(field_type: FieldType, action: FieldAction) -> Seq<char> {
    match (action, field_type) {
        (FieldAction::Edit, FieldType::Trigger) => "Edit Trigger"@,
        (FieldAction::Edit, FieldType::Action) => "Edit Action"@,
        (FieldAction::Add, FieldType::Trigger) => "Add Trigger"@,
        (FieldAction::Add, FieldType::Action) => "Add Action"@,
    }
}

/// Returns the title of the menu's dialog.
pub fn dialog_title(field_type: FieldType, action: FieldAction) -> (res: &'static str)
    ensures
        res@ == dialog_title_spec(field_type, action),
{
    match action {
        FieldAction::Edit => match field_type {
            FieldType::Trigger => "Edit Trigger",
            FieldType::Action => "Edit Action",
        },
        FieldAction::Add => match field_type {
            FieldType::Trigger => "Add Trigger",
            FieldType::Action => "Add Action",
        },
    }
}

/// Returns the label of the submit button: "Save Changes" when editing,
/// "Add" when adding.
pub fn submit_label(action: FieldAction) -> (res: &'static str)
    ensures
        action == FieldAction::Edit ==> res@ == "Save Changes"@,
        action == FieldAction::Add ==> res@ == "Add"@,
{
    match action {
        FieldAction::Edit => "Save Changes",
        FieldAction::Add => "Add",
    }
}

/// The name of the field kind `kind`.
pub open spec fn kind_name(field_type: FieldType, kind: i64) -> Seq<char> {
    match field_type {
        FieldType::Trigger => trigger_name_spec(kind),
        FieldType::Action => action_name_spec(kind),
    }
}

/// The highest kind that can be chosen for a field.
pub open spec fn kind_max(field_type: FieldType) -> i64 {
    match field_type {
        FieldType::Trigger => TRIGGER_MAX,
        FieldType::Action => ACTION_MAX,
    }
}

/// Returns the names of the kinds that can be chosen, the first kind first.
pub fn type_names(field_type: FieldType) -> (res: Vec<String>)
    ensures
        res@.len() == kind_max(field_type),
        forall|i: int| 0 <= i < res@.len() ==> #[trigger] res@[i]@ == kind_name(field_type, (i + 1) as i64),
{
    let max = match field_type {
        FieldType::Trigger => TRIGGER_MAX,
        FieldType::Action => ACTION_MAX,
    };
    let mut names: Vec<String> = Vec::new();
    let mut i: i64 = 1;
    while i <= max
        invariant
            max == kind_max(field_type),
            1 <= i <= max + 1,
            names@.len() == i - 1,
            forall|j: int| 0 <= j < names@.len() ==> #[trigger] names@[j]@ == kind_name(field_type, (j + 1) as i64),
        decreases max + 1 - i,
    {
        let name = match field_type {
            FieldType::Trigger => trigger_to_name(i),
            FieldType::Action => action_to_name(i),
        };
        names.push(name);
        i = i + 1;
    }
    names
}

/// Returns the title of an option's row: its title, followed by
/// " (optional)" when it is not mandatory.
pub fn option_row_title(option: &OptionDetails) -> (res: String)
    ensures
        res@ == option.title@ + if option.mandatory { Seq::<char>::empty() } else { " (optional)"@ },
{
    let mut t = option.title.clone();
    if !option.mandatory {
        t.append(" (optional)");
    } else {
        assert(t@ =~= option.title@ + Seq::<char>::empty());
    }
    t
}

} // verus!
