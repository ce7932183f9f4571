//! The option pickers, by the values their widgets hold: reading their
//! starting values from JSON, and giving back JSON, a completion flag and a
//! short summary.

use vstd::prelude::*;
use crate::common::OptionType;
use crate::json::{
    key_less, lemma_find_ascending, lemma_find_absent, lemma_scalars_are_values, canonical_value,
    find_member, find_member_text, json_object_text, json_parse, json_quote, pair_views,
    parse_json, quote_json_string, text_as_i64, text_as_str, write_json_object, as_i64, as_str,
    opt_string_view, keys_ascending, all_canonical, canonical_scalar, JsonValue, JsonView,
};
use crate::text::{digit_char, int_decimal, int_pad2, push_int, push_int_pad2, int_to_string, comma_join_spec, weekday_name};

verus! {

/// `v` brought into `[lo, hi]`, as a spin button does with a value it is given.
pub open spec fn clamp_spec(v: int, lo: int, hi: int) -> int {
    if v < lo { lo } else if v > hi { hi } else { v }
}

/// Brings `v` into `[lo, hi]`.
pub fn clamp(v: i64, lo: i64, hi: i64) -> (res: i64)
    requires
        lo <= hi,
    ensures
        res == clamp_spec(v as int, lo as int, hi as int),
{
    if v < lo { lo } else if v > hi { hi } else { v }
}

/// Whether every member text of `m` is an `i64`.
pub open spec fn all_members_int(m: Seq<(Seq<char>, Seq<char>)>) -> bool {
    forall|i: int| 0 <= i < m.len() ==> (#[trigger] text_as_i64(m[i].1)) is Some
}

/// Whether every member text of `m` is a string.
pub open spec fn all_members_str(m: Seq<(Seq<char>, Seq<char>)>) -> bool {
    forall|i: int| 0 <= i < m.len() ==> (#[trigger] text_as_str(m[i].1)) is Some
}

/// The entry `key` of `text` read as a map from names to `i64`: `None`
/// when the key is missing, or the text is not an object whose members
/// are all `i64` (parsing into `HashMap<String, i64>`, with the empty map
/// when that fails).
pub open spec fn int_entry(text: Seq<char>, key: Seq<char>) -> Option<i64> {
    match json_parse(text) {
        Some(JsonView::Object(m)) => if all_members_int(m) {
            match find_member(m, key) {
                Some(t) => text_as_i64(t),
                None => None,
            }
        } else {
            None
        },
        _ => None,
    }
}

/// The entry `key` of `text` read as a map from names to strings.
pub open spec fn str_entry(text: Seq<char>, key: Seq<char>) -> Option<Seq<char>> {
    match json_parse(text) {
        Some(JsonView::Object(m)) => if all_members_str(m) {
            match find_member(m, key) {
                Some(t) => text_as_str(t),
                None => None,
            }
        } else {
            None
        },
        _ => None,
    }
}

/// Whether every text of the pairs is the decimal form of an `i64`.
pub open spec fn all_int_texts(e: Seq<(Seq<char>, Seq<char>)>) -> bool {
    forall|i: int| #![trigger e[i]] 0 <= i < e.len() ==> exists|n: int| i64::MIN <= n <= i64::MAX && #[trigger] int_decimal(n) == e[i].1
}

/// Whether each text of the pairs that is the decimal form of an `i64`
/// reads as that number.
pub open spec fn int_texts_read(e: Seq<(Seq<char>, Seq<char>)>) -> bool {
    forall|i: int, n: int| 0 <= i < e.len() && i64::MIN <= n <= i64::MAX && #[trigger] int_decimal(n) == #[trigger] e[i].1
        ==> text_as_i64(e[i].1) == Some(n as i64)
}

/// A JSON text read as a map from names to `i64`: the members, or none.
pub struct IntMap {
    pub entries: Vec<(String, String)>,
}

impl IntMap {
    /// Whether the parsed members are those of an object of `i64` members
    /// in `text`, or none when `text` is not one.
    pub open spec fn reads(&self, text: Seq<char>) -> bool {
        forall|key: Seq<char>| #[trigger] int_entry(text, key) == match find_member(pair_views(self.entries@), key) {
            Some(t) => text_as_i64(t),
            None => None,
        }
    }

    /// Parses `text` as a map from names to `i64`. An object that
    /// `serde_json` wrote from pairs with increasing keys and `i64` values
    /// reads as those pairs.
    pub fn parse(text: &str) -> (res: IntMap)
        ensures
            res.reads(text@),
            forall|e: Seq<(Seq<char>, Seq<char>)>| #[trigger] json_object_text(e) == text@ && keys_ascending(e)
                && all_int_texts(e) ==> pair_views(res.entries@) == e && int_texts_read(e),
    {
        let parsed = parse_json(text);
        proof {
            assert forall|e: Seq<(Seq<char>, Seq<char>)>| all_int_texts(e) implies #[trigger] all_canonical(e) by {
                assert forall|i: int| 0 <= i < e.len() implies canonical_scalar(#[trigger] e[i].1) by {
                    let n = choose|n: int| i64::MIN <= n <= i64::MAX && #[trigger] int_decimal(n) == e[i].1;
                }
            }
        }
        match parsed {
            Some(JsonValue::Object(m)) => {
                let mut i: usize = 0;
                let mut all = true;
                while i < m.len()
                    invariant
                        i <= m.len(),
                        all == (forall|j: int| 0 <= j < i ==> (#[trigger] text_as_i64(pair_views(m@)[j].1)) is Some),
                        forall|j: int, n: int| 0 <= j < i && i64::MIN <= n <= i64::MAX
                            && #[trigger] int_decimal(n) == #[trigger] pair_views(m@)[j].1
                            ==> text_as_i64(pair_views(m@)[j].1) == Some(n as i64),
                    decreases m.len() - i,
                {
                    assert(pair_views(m@)[i as int].1 == m@[i as int].1@);
                    if as_i64(m[i].1.as_str()).is_none() {
                        all = false;
                    }
                    i = i + 1;
                }
                proof {
                    assert forall|e: Seq<(Seq<char>, Seq<char>)>| #[trigger] json_object_text(e) == text@ && keys_ascending(e)
                        && all_int_texts(e) implies all && int_texts_read(e) by {
                        assert(all_canonical(e));
                        lemma_scalars_are_values(e);
                        assert(pair_views(m@) == e);
                        assert forall|j: int| 0 <= j < m@.len() implies (#[trigger] text_as_i64(pair_views(m@)[j].1)) is Some by {
                            let n = choose|n: int| i64::MIN <= n <= i64::MAX && #[trigger] int_decimal(n) == e[j].1;
                        }
                    }
                }
                if all {
                    IntMap { entries: m }
                } else {
                    let e: Vec<(String, String)> = Vec::new();
                    proof {
                        assert(pair_views(e@) =~= Seq::empty());
                        assert forall|key: Seq<char>| #[trigger] int_entry(text@, key) == None::<i64> by {
                            assert(!all_members_int(pair_views(m@)));
                        }
                    }
                    IntMap { entries: e }
                }
            },
            _ => {
                let e: Vec<(String, String)> = Vec::new();
                assert(pair_views(e@) =~= Seq::empty());
                IntMap { entries: e }
            },
        }
    }

    /// The `i64` stored under `key`.
    pub fn get(&self, key: &str) -> (res: Option<i64>)
        ensures
            res == match find_member(pair_views(self.entries@), key@) {
                Some(t) => text_as_i64(t),
                None => None,
            },
    {
        match find_member_text(&self.entries, key) {
            Some(t) => as_i64(t.as_str()),
            None => None,
        }
    }
}


/// Reads the string stored under `key` in `text` read as a map from names
/// to strings.
pub fn read_str_entry(text: &str, key: &str) -> (res: Option<String>)
    ensures
        opt_string_view(res) == str_entry(text@, key@),
        forall|s: Seq<char>| #![trigger json_quote(s)]
            json_object_text(seq![(key@, json_quote(s))]) == text@ ==> opt_string_view(res) == Some(s),
{
    let parsed = parse_json(text);
    match parsed {
        Some(JsonValue::Object(m)) => {
            let mut i: usize = 0;
            let mut all = true;
            while i < m.len()
                invariant
                    i <= m.len(),
                    all == (forall|j: int| 0 <= j < i ==> (#[trigger] text_as_str(pair_views(m@)[j].1)) is Some),
                    forall|j: int, s: Seq<char>| 0 <= j < i && #[trigger] json_quote(s) == #[trigger] pair_views(m@)[j].1
                        ==> text_as_str(pair_views(m@)[j].1) == Some(s),
                decreases m.len() - i,
            {
                assert(pair_views(m@)[i as int].1 == m@[i as int].1@);
                if as_str(m[i].1.as_str()).is_none() {
                    all = false;
                }
                i = i + 1;
            }
            let res = if all {
                match find_member_text(&m, key) {
                    Some(t) => as_str(t.as_str()),
                    None => None,
                }
            } else {
                None
            };
            proof {
                assert forall|s: Seq<char>| #![trigger json_quote(s)]
                    json_object_text(seq![(key@, json_quote(s))]) == text@ implies opt_string_view(res) == Some(s) by {
                    let e = seq![(key@, json_quote(s))];
                    assert(canonical_scalar(e[0].1));
                    assert(all_canonical(e));
                    lemma_scalars_are_values(e);
                    assert(pair_views(m@) == e);
                    assert(json_quote(s) == pair_views(m@)[0].1);
                    assert(text_as_str(pair_views(m@)[0].1) == Some(s));
                }
            }
            res
        },
        _ => None,
    }
}

/// The largest spin-button value of the frequency fields.
pub const FREQUENCY_FIELD_MAX: i64 = 100000;

/// The values a frequency picker holds: a whole number of years, months or
/// days, or a combination of hours, minutes and seconds.
#[derive(Clone, Copy, Debug, PartialEq, Eq, Structural)]
pub struct FrequencyPicker {
    pub year: i64,
    pub month: i64,
    pub day: i64,
    pub hour: i64,
    pub minute: i64,
    pub second: i64,
}

/// A frequency field's starting value: the JSON entry, brought into range.
pub open spec fn freq_field(e: Option<i64>) -> i64 {
    match e {
        Some(v) => clamp_spec(v as int, 0, FREQUENCY_FIELD_MAX as int) as i64,
        None => 0,
    }
}

/// The `i64` a unit of a frequency value is, as JSON text.
pub open spec fn int_text(n: i64) -> Seq<char> {
    int_decimal(n as int)
}

/// `acc` followed by the brief of a field, joined by ", " when both are
/// non-empty.
pub open spec fn add_brief(acc: Seq<char>, v: i64, unit: Seq<char>) -> Seq<char> {
    if v != 0 { comma_join_spec(acc, int_decimal(v as int) + unit) } else { acc }
}

proof fn lemma_frequency_keys()
    ensures
        "year"@ != "month"@, "year"@ != "day"@, "year"@ != "hour"@, "year"@ != "minute"@,
        "year"@ != "second"@, "month"@ != "day"@, "month"@ != "hour"@, "month"@ != "minute"@,
        "month"@ != "second"@, "day"@ != "hour"@, "day"@ != "minute"@, "day"@ != "second"@,
{
    reveal_strlit("year");
    reveal_strlit("month");
    reveal_strlit("day");
    reveal_strlit("hour");
    reveal_strlit("minute");
    reveal_strlit("second");
    assert("year"@[0] != "month"@[0]);
    assert("year"@[0] != "day"@[0]);
    assert("year"@[0] != "hour"@[0]);
    assert("year"@[0] != "minute"@[0]);
    assert("year"@[0] != "second"@[0]);
    assert("month"@[0] != "day"@[0]);
    assert("month"@[0] != "hour"@[0]);
    assert("month"@[1] != "minute"@[1]);
    assert("month"@[0] != "second"@[0]);
    assert("day"@[0] != "hour"@[0]);
    assert("day"@[0] != "minute"@[0]);
    assert("day"@[0] != "second"@[0]);
}

proof fn lemma_single_entry(k: Seq<char>, v: i64)
    ensures
        keys_ascending(seq![(k, int_text(v))]),
        all_int_texts(seq![(k, int_text(v))]),
{
    let e = seq![(k, int_text(v))];
    assert forall|i: int| #![trigger e[i]] 0 <= i < e.len() implies exists|n: int| i64::MIN <= n <= i64::MAX && #[trigger] int_decimal(n) == e[i].1 by {
        assert(int_decimal(v as int) == e[i].1);
    }
}

impl FrequencyPicker {
    /// Whether the picker is in a form its JSON is written in: every value
    /// in range, and either a count of hours, minutes and seconds, or a
    /// whole number of days, months or years alone, or nothing set.
    pub open spec fn written_form(&self) -> bool {
        let hms = self.hour != 0 || self.minute != 0 || self.second != 0;
        &&& 0 <= self.year <= FREQUENCY_FIELD_MAX
        &&& 0 <= self.month <= FREQUENCY_FIELD_MAX
        &&& 0 <= self.day <= FREQUENCY_FIELD_MAX
        &&& 0 <= self.hour <= FREQUENCY_FIELD_MAX
        &&& 0 <= self.minute <= FREQUENCY_FIELD_MAX
        &&& 0 <= self.second <= FREQUENCY_FIELD_MAX
        &&& {
            ||| (hms && self.year == 0 && self.month == 0 && self.day == 0)
            ||| (!hms && self.day != 0 && self.year == 0 && self.month == 0)
            ||| (!hms && self.day == 0 && self.month != 0 && self.year == 0)
            ||| (!hms && self.day == 0 && self.month == 0 && self.year != 0)
            ||| (!hms && self.day == 0 && self.month == 0 && self.year == 0)
        }
    }

    /// Where each field starts, given the JSON it was opened with.
    pub open spec fn from_json_spec(json: Seq<char>) -> FrequencyPicker {
        let zero = FrequencyPicker { year: 0, month: 0, day: 0, hour: 0, minute: 0, second: 0 };
        if int_entry(json, "year"@) is Some {
            FrequencyPicker { year: freq_field(int_entry(json, "year"@)), ..zero }
        } else if int_entry(json, "month"@) is Some {
            FrequencyPicker { month: freq_field(int_entry(json, "month"@)), ..zero }
        } else if int_entry(json, "day"@) is Some {
            FrequencyPicker { day: freq_field(int_entry(json, "day"@)), ..zero }
        } else {
            FrequencyPicker {
                hour: freq_field(int_entry(json, "hour"@)),
                minute: freq_field(int_entry(json, "minute"@)),
                second: freq_field(int_entry(json, "second"@)),
                ..zero
            }
        }
    }

    /// Opens a frequency picker with the values the JSON holds: a year,
    /// else a month, else a day, else hours, minutes and seconds.
    pub fn new(json: &str) -> (res: FrequencyPicker)
        ensures
            res == Self::from_json_spec(json@),
            forall|q: FrequencyPicker| #[trigger] q.json_spec() == json@ && q.written_form() ==> res == q,
    {
        let m = IntMap::parse(json);
        let mut p = FrequencyPicker { year: 0, month: 0, day: 0, hour: 0, minute: 0, second: 0 };
        if let Some(y) = m.get("year") {
            p.year = clamp(y, 0, FREQUENCY_FIELD_MAX);
        } else if let Some(mo) = m.get("month") {
            p.month = clamp(mo, 0, FREQUENCY_FIELD_MAX);
        } else if let Some(d) = m.get("day") {
            p.day = clamp(d, 0, FREQUENCY_FIELD_MAX);
        } else {
            if let Some(h) = m.get("hour") {
                p.hour = clamp(h, 0, FREQUENCY_FIELD_MAX);
            }
            if let Some(mi) = m.get("minute") {
                p.minute = clamp(mi, 0, FREQUENCY_FIELD_MAX);
            }
            if let Some(s) = m.get("second") {
                p.second = clamp(s, 0, FREQUENCY_FIELD_MAX);
            }
        }
        proof {
            assert forall|q: FrequencyPicker| #[trigger] q.json_spec() == json@ && q.written_form() implies p == q by {
                lemma_frequency_keys();
                if q.hour != 0 || q.minute != 0 || q.second != 0 {
                    let e = hms_entries(q.hour, q.minute, q.second);
                    lemma_hms_entries(q.hour, q.minute, q.second);
                    assert(pair_views(m.entries@) == e);
                    lemma_find_absent(e, "year"@);
                    lemma_find_absent(e, "month"@);
                    lemma_find_absent(e, "day"@);
                    lemma_find_ascending(e, 0);
                    lemma_find_ascending(e, 1);
                    lemma_find_ascending(e, 2);
                    assert(int_decimal(q.hour as int) == e[0].1);
                    assert(int_decimal(q.minute as int) == e[1].1);
                    assert(int_decimal(q.second as int) == e[2].1);
                    assert(int_entry(json@, "year"@) is None);
                    assert(int_entry(json@, "month"@) is None);
                    assert(int_entry(json@, "day"@) is None);
                    assert(int_entry(json@, "hour"@) == Some(q.hour));
                    assert(int_entry(json@, "minute"@) == Some(q.minute));
                    assert(int_entry(json@, "second"@) == Some(q.second));
                } else if q.day != 0 {
                    let e = seq![("day"@, int_text(q.day))];
                    lemma_single_entry("day"@, q.day);
                    assert(pair_views(m.entries@) == e);
                    lemma_find_absent(e, "year"@);
                    lemma_find_absent(e, "month"@);
                    lemma_find_ascending(e, 0);
                    assert(int_decimal(q.day as int) == e[0].1);
                    assert(int_entry(json@, "year"@) is None);
                    assert(int_entry(json@, "month"@) is None);
                    assert(int_entry(json@, "day"@) == Some(q.day));
                } else if q.month != 0 {
                    let e = seq![("month"@, int_text(q.month))];
                    lemma_single_entry("month"@, q.month);
                    assert(pair_views(m.entries@) == e);
                    lemma_find_absent(e, "year"@);
                    lemma_find_ascending(e, 0);
                    assert(int_decimal(q.month as int) == e[0].1);
                    assert(int_entry(json@, "year"@) is None);
                    assert(int_entry(json@, "month"@) == Some(q.month));
                } else if q.year != 0 {
                    let e = seq![("year"@, int_text(q.year))];
                    lemma_single_entry("year"@, q.year);
                    assert(pair_views(m.entries@) == e);
                    lemma_find_ascending(e, 0);
                    assert(int_decimal(q.year as int) == e[0].1);
                    assert(int_entry(json@, "year"@) == Some(q.year));
                } else {
                    let e: Seq<(Seq<char>, Seq<char>)> = Seq::empty();
                    assert(keys_ascending(e));
                    assert(all_int_texts(e));
                    assert(pair_views(m.entries@) == e);
                    assert(int_entry(json@, "year"@) is None);
                    assert(int_entry(json@, "month"@) is None);
                    assert(int_entry(json@, "day"@) is None);
                    assert(int_entry(json@, "hour"@) is None);
                    assert(int_entry(json@, "minute"@) is None);
                    assert(int_entry(json@, "second"@) is None);
                }
            }
        }
        p
    }

    /// The picker is completed when some value is not zero.
    pub open spec fn completed_spec(&self) -> bool {
        self.year != 0 || self.month != 0 || self.day != 0 || self.hour != 0 || self.minute != 0
            || self.second != 0
    }

    /// Returns whether the picker has been completed: some value is not zero.
    pub fn is_now_completed(&self) -> (res: bool)
        ensures
            res == self.completed_spec(),
    {
        self.year != 0 || self.month != 0 || self.day != 0 || self.hour != 0 || self.minute != 0
            || self.second != 0
    }

    /// The JSON of the picker's state: hours, minutes and seconds when any
    /// is set, else the days, else the months, else the years, else the
    /// empty object.
    pub open spec fn json_spec(&self) -> Seq<char> {
        if self.hour != 0 || self.minute != 0 || self.second != 0 {
            json_object_text(seq![
                ("hour"@, int_text(self.hour)),
                ("minute"@, int_text(self.minute)),
                ("second"@, int_text(self.second)),
            ])
        } else if self.day != 0 {
            json_object_text(seq![("day"@, int_text(self.day))])
        } else if self.month != 0 {
            json_object_text(seq![("month"@, int_text(self.month))])
        } else if self.year != 0 {
            json_object_text(seq![("year"@, int_text(self.year))])
        } else {
            json_object_text(Seq::empty())
        }
    }

    /// Gets the current state of the picker in JSON.
    ///
    /// The format for FrequencyPicker is:
    /// {
    ///     "year": integer,
    ///     "month": integer,
    ///     "day": integer,
    ///
    ///     "hour": integer,
    ///     "minute": integer,
    ///     "second": integer
    /// }
    ///
    /// Year, month and day are only used on their own, and not with any of
    /// the other fields.
    pub fn get_json(&self) -> (res: String)
        ensures
            res@ == self.json_spec(),
    {
        if self.hour != 0 || self.minute != 0 || self.second != 0 {
            let mut e: Vec<(String, String)> = Vec::new();
            e.push((String::from_str("hour"), int_to_string(self.hour)));
            e.push((String::from_str("minute"), int_to_string(self.minute)));
            e.push((String::from_str("second"), int_to_string(self.second)));
            let r = write_json_object(&e);
            assert(pair_views(e@) =~= seq![
                ("hour"@, int_text(self.hour)),
                ("minute"@, int_text(self.minute)),
                ("second"@, int_text(self.second)),
            ]);
            r
        } else if self.day != 0 {
            single_entry_json("day", self.day)
        } else if self.month != 0 {
            single_entry_json("month", self.month)
        } else if self.year != 0 {
            single_entry_json("year", self.year)
        } else {
            let e: Vec<(String, String)> = Vec::new();
            assert(pair_views(e@) =~= Seq::empty());
            write_json_object(&e)
        }
    }

    /// The summary: each value that is not zero with its unit, comma separated.
    pub open spec fn summary_spec(&self) -> Seq<char> {
        add_brief(add_brief(add_brief(add_brief(add_brief(add_brief(Seq::empty(),
            self.year, "y"@), self.month, "mo"@), self.day, "d"@), self.hour, "h"@),
            self.minute, "m"@), self.second, "s"@)
    }

    /// Returns a human readable summary of the selected frequency.
    pub fn get_summary_text(&self) -> (res: String)
        ensures
            res@ == self.summary_spec(),
    {
        let mut brief = String::new();
        brief = append_brief(brief, self.year, "y");
        brief = append_brief(brief, self.month, "mo");
        brief = append_brief(brief, self.day, "d");
        brief = append_brief(brief, self.hour, "h");
        brief = append_brief(brief, self.minute, "m");
        brief = append_brief(brief, self.second, "s");
        brief
    }
}

/// A field of the frequency picker.
#[derive(Clone, Copy, Debug, PartialEq, Eq, Structural)]
pub enum FrequencyField {
    Year,
    Month,
    Day,
    Hour,
    Minute,
    Second,
}

/// Whether a field is one of the fields used on their own (years, months,
/// days).
pub open spec fn is_separate(f: FrequencyField) -> bool {
    f == FrequencyField::Year || f == FrequencyField::Month || f == FrequencyField::Day
}

/// Whether a non-zero value of `g` switches off the row of `f`: a field
/// used on its own switches off every other row, and an hour, minute or
/// second switches off the years, months and days.
pub open spec fn blocks(g: FrequencyField, f: FrequencyField) -> bool {
    g != f && (is_separate(g) || is_separate(f))
}

impl FrequencyPicker {
    /// The value of a field.
    pub open spec fn value(&self, f: FrequencyField) -> i64 {
        match f {
            FrequencyField::Year => self.year,
            FrequencyField::Month => self.month,
            FrequencyField::Day => self.day,
            FrequencyField::Hour => self.hour,
            FrequencyField::Minute => self.minute,
            FrequencyField::Second => self.second,
        }
    }

    /// Whether the row of `f` can be edited: no field that switches it off
    /// is set.
    pub open spec fn row_enabled_spec(&self, f: FrequencyField) -> bool {
        forall|g: FrequencyField| #[trigger] blocks(g, f) ==> self.value(g) == 0
    }

    /// The picker with the value of `f` replaced by `v`.
    pub open spec fn with_value(&self, f: FrequencyField, v: i64) -> FrequencyPicker {
        match f {
            FrequencyField::Year => FrequencyPicker { year: v, ..*self },
            FrequencyField::Month => FrequencyPicker { month: v, ..*self },
            FrequencyField::Day => FrequencyPicker { day: v, ..*self },
            FrequencyField::Hour => FrequencyPicker { hour: v, ..*self },
            FrequencyField::Minute => FrequencyPicker { minute: v, ..*self },
            FrequencyField::Second => FrequencyPicker { second: v, ..*self },
        }
    }

    /// Returns whether the row of `field` can be edited: while years,
    /// months or days are set, every other row is switched off, and while
    /// any of hours, minutes and seconds is set, the years, months and
    /// days are switched off.
    pub fn row_enabled(&self, field: FrequencyField) -> (res: bool)
        ensures
            res == self.row_enabled_spec(field),
    {
        let hms_clear = self.hour == 0 && self.minute == 0 && self.second == 0;
        let res = match field {
            FrequencyField::Year => self.month == 0 && self.day == 0 && hms_clear,
            FrequencyField::Month => self.year == 0 && self.day == 0 && hms_clear,
            FrequencyField::Day => self.year == 0 && self.month == 0 && hms_clear,
            _ => self.year == 0 && self.month == 0 && self.day == 0,
        };
        proof {
            if res {
                assert forall|g: FrequencyField| #[trigger] blocks(g, field) implies self.value(g) == 0 by {
                    match g {
                        FrequencyField::Year => {},
                        FrequencyField::Month => {},
                        FrequencyField::Day => {},
                        FrequencyField::Hour => {},
                        FrequencyField::Minute => {},
                        FrequencyField::Second => {},
                    }
                }
            } else if self.row_enabled_spec(field) {
                assert(blocks(FrequencyField::Year, field) ==> self.value(FrequencyField::Year) == 0);
                assert(blocks(FrequencyField::Month, field) ==> self.value(FrequencyField::Month) == 0);
                assert(blocks(FrequencyField::Day, field) ==> self.value(FrequencyField::Day) == 0);
                assert(blocks(FrequencyField::Hour, field) ==> self.value(FrequencyField::Hour) == 0);
                assert(blocks(FrequencyField::Minute, field) ==> self.value(FrequencyField::Minute) == 0);
                assert(blocks(FrequencyField::Second, field) ==> self.value(FrequencyField::Second) == 0);
                assert(false);
            }
        }
        res
    }

    /// Sets the value of `field`, brought into `[0, FREQUENCY_FIELD_MAX]`
    /// as its spin button does.
    pub fn set_field(&mut self, field: FrequencyField, value: i64)
        ensures
            *final(self) == old(self).with_value(field, clamp_spec(value as int, 0, FREQUENCY_FIELD_MAX as int) as i64),
    {
        let v = clamp(value, 0, FREQUENCY_FIELD_MAX);
        match field {
            FrequencyField::Year => self.year = v,
            FrequencyField::Month => self.month = v,
            FrequencyField::Day => self.day = v,
            FrequencyField::Hour => self.hour = v,
            FrequencyField::Minute => self.minute = v,
            FrequencyField::Second => self.second = v,
        }
    }
}

/// Editing only rows that are enabled keeps a frequency picker in a form
/// its JSON is written in: a whole number of years, months or days alone,
/// or a count of hours, minutes and seconds.
pub proof fn editing_enabled_rows_keeps_written_form(p: FrequencyPicker, f: FrequencyField, v: i64)
    requires
        p.written_form(),
        p.row_enabled_spec(f),
        0 <= v <= FREQUENCY_FIELD_MAX,
    ensures
        p.with_value(f, v).written_form(),
{
    assert(blocks(FrequencyField::Year, f) ==> p.year == 0);
    assert(blocks(FrequencyField::Month, f) ==> p.month == 0);
    assert(blocks(FrequencyField::Day, f) ==> p.day == 0);
    assert(blocks(FrequencyField::Hour, f) ==> p.hour == 0);
    assert(blocks(FrequencyField::Minute, f) ==> p.minute == 0);
    assert(blocks(FrequencyField::Second, f) ==> p.second == 0);
}

fn append_brief(acc: String, v: i64, unit: &str) -> (res: String)
    ensures
        res@ == add_brief(acc@, v, unit@),
{
    if v != 0 {
        let mut item = int_to_string(v);
        item.append(unit);
        crate::text::concatenate_strs_with_comma(acc, item)
    } else {
        acc
    }
}

fn single_entry_json(key: &str, v: i64) -> (res: String)
    ensures
        res@ == json_object_text(seq![(key@, int_text(v))]),
{
    let mut e: Vec<(String, String)> = Vec::new();
    e.push((String::from_str(key), int_to_string(v)));
    assert(pair_views(e@) =~= seq![(key@, int_text(v))]);
    write_json_object(&e)
}

/// The number of days in a month (1 is January) of a year, by the
/// Gregorian calendar: 31 for a number that is not a month.
pub open spec fn days_in_month_spec(month: i64, year: i64) -> i64 {
    if month == 4 || month == 6 || month == 9 || month == 11 {
        30
    } else if month == 2 {
        if (year % 4 == 0 && year % 100 != 0) || year % 400 == 0 { 29 } else { 28 }
    } else {
        31
    }
}

/// Returns how many days the month has in the given year: leap years are
/// every 4 years, except on centuries which aren't divisible by 400.
pub fn days_in_month(month: i64, year: i64) -> (res: i64)
    ensures
        res == days_in_month_spec(month, year),
{
    if month == 4 || month == 6 || month == 9 || month == 11 {
        30
    } else if month == 2 {
        let leap = (year % 4 == 0 && year % 100 != 0) || year % 400 == 0;
        if leap { 29 } else { 28 }
    } else {
        31
    }
}

/// Every month has between 28 and 31 days, and February has 29 exactly
/// in leap years.
pub proof fn days_in_month_bounds(month: i64, year: i64)
    ensures
        28 <= days_in_month_spec(month, year) <= 31,
        month == 2 ==> (days_in_month_spec(month, year) == 29 <==>
            ((year % 4 == 0 && year % 100 != 0) || year % 400 == 0)),
{
}

/// Whether `year` is a leap year of the Gregorian calendar.
pub open spec fn is_leap_year(year: int) -> bool {
    (year % 4 == 0 && year % 100 != 0) || year % 400 == 0
}

/// The days of the first `k` months of a year.
pub open spec fn days_before_month(k: int, year: i64) -> int
    decreases k,
{
    if k <= 0 { 0 } else { days_before_month(k - 1, year) + days_in_month_spec(k as i64, year) }
}

/// The twelve months of a year add up to the length of the year: 366
/// days in a leap year, 365 otherwise.
pub proof fn months_make_up_the_year(year: i64)
    ensures
        days_before_month(12, year) == if is_leap_year(year as int) { 366int } else { 365int },
{
    reveal_with_fuel(days_before_month, 13);
}

/// The months have the lengths of the knuckle rule: from January to July,
/// the odd months have 31 days and the even ones 30 (February aside); from
/// August to December, the even months have 31 days and the odd ones 30.
/// February has 29 days in a leap year and 28 otherwise.
pub proof fn months_follow_the_knuckle_rule(month: i64, year: i64)
    requires
        1 <= month <= 12,
    ensures
        month == 2 ==> days_in_month_spec(month, year) == if is_leap_year(year as int) { 29i64 } else { 28i64 },
        month != 2 && month <= 7 ==> days_in_month_spec(month, year) == if month % 2 == 1 { 31i64 } else { 30i64 },
        month >= 8 ==> days_in_month_spec(month, year) == if month % 2 == 0 { 31i64 } else { 30i64 },
{
}

/// The values a date and time picker holds.
#[derive(Clone, Copy, Debug, PartialEq, Eq, Structural)]
pub struct DateTimePicker {
    pub day: i64,
    pub month: i64,
    pub year: i64,
    pub hour: i64,
    pub minute: i64,
    pub second: i64,
    /// The largest day the day field takes: 31 when the picker opens, and
    /// the number of days of the selected month once the month or the
    /// year has been changed.
    pub day_max: i64,
}

/// The largest year a date picker accepts.
pub const YEAR_MAX: i64 = 100000;

/// A date or time field's starting value: the JSON entry if there is one,
/// else `default`, brought into `[lo, hi]`.
pub open spec fn field_from(e: Option<i64>, default: i64, lo: int, hi: int) -> i64 {
    match e {
        Some(v) => clamp_spec(v as int, lo, hi) as i64,
        None => clamp_spec(default as int, lo, hi) as i64,
    }
}

/// The date and time picker opened with `json` on the given day of today.
pub open spec fn datetime_from_json(json: Seq<char>, today_day: i64, today_month: i64, today_year: i64) -> DateTimePicker {
    let month = field_from(int_entry(json, "month"@), today_month, 1, 12);
    let year = field_from(int_entry(json, "year"@), today_year, 2000, YEAR_MAX as int);
    DateTimePicker {
        day: field_from(int_entry(json, "day"@), today_day, 1, 31),
        month,
        year,
        hour: field_from(int_entry(json, "hour"@), 0, 0, 23),
        minute: field_from(int_entry(json, "minute"@), 0, 0, 59),
        second: field_from(int_entry(json, "second"@), 0, 0, 59),
        day_max: 31,
    }
}

/// The pairs a date and time picker's JSON is written from, in the order
/// of their keys.
pub open spec fn datetime_entries(p: DateTimePicker) -> Seq<(Seq<char>, Seq<char>)> {
    seq![
        ("day"@, int_text(p.day)),
        ("hour"@, int_text(p.hour)),
        ("minute"@, int_text(p.minute)),
        ("month"@, int_text(p.month)),
        ("second"@, int_text(p.second)),
        ("year"@, int_text(p.year)),
    ]
}

proof fn lemma_datetime_entries(p: DateTimePicker)
    ensures
        keys_ascending(datetime_entries(p)),
        all_int_texts(datetime_entries(p)),
{
    reveal_strlit("day");
    reveal_strlit("hour");
    reveal_strlit("minute");
    reveal_strlit("month");
    reveal_strlit("second");
    reveal_strlit("year");
    let e = datetime_entries(p);
    assert(key_less("minute"@.drop_first(), "month"@.drop_first()));
    assert forall|i: int, j: int| 0 <= i < j < e.len() implies key_less(#[trigger] e[i].0, #[trigger] e[j].0) by {
        if e[i].0[0] != e[j].0[0] {
            assert((e[i].0[0] as int) < (e[j].0[0] as int));
        } else {
            assert(i == 2 && j == 3);
        }
    }
    assert forall|i: int| #![trigger e[i]] 0 <= i < e.len() implies exists|n: int| i64::MIN <= n <= i64::MAX && #[trigger] int_decimal(n) == e[i].1 by {
        if i == 0 {
            assert(int_decimal(p.day as int) == e[i].1);
        } else if i == 1 {
            assert(int_decimal(p.hour as int) == e[i].1);
        } else if i == 2 {
            assert(int_decimal(p.minute as int) == e[i].1);
        } else if i == 3 {
            assert(int_decimal(p.month as int) == e[i].1);
        } else if i == 4 {
            assert(int_decimal(p.second as int) == e[i].1);
        } else {
            assert(int_decimal(p.year as int) == e[i].1);
        }
    }
}

impl DateTimePicker {
    /// Whether the values are in the ranges the picker's fields allow.
    pub open spec fn valid(&self) -> bool {
        &&& 1 <= self.month <= 12
        &&& 2000 <= self.year <= YEAR_MAX
        &&& 1 <= self.day <= days_in_month_spec(self.month, self.year)
        &&& 0 <= self.hour <= 23
        &&& 0 <= self.minute <= 59
        &&& 0 <= self.second <= 59
    }

    /// The date and time the picker holds.
    pub open spec fn values(&self) -> (i64, i64, i64, i64, i64, i64) {
        (self.day, self.month, self.year, self.hour, self.minute, self.second)
    }

    /// Opens a date and time picker with the date and time the JSON holds:
    /// each missing part of the date taken from today's, and each missing
    /// part of the time 0. Each part is brought into its field's range; the
    /// day field takes 1 to 31 until the month or the year is changed. A
    /// date and time picker opened with the JSON another gave holds the
    /// same date and time.
    pub fn new(json: &str, today_day: i64, today_month: i64, today_year: i64) -> (res: DateTimePicker)
        ensures
            res == datetime_from_json(json@, today_day, today_month, today_year),
            forall|q: DateTimePicker| #[trigger] q.json_spec() == json@ && q.valid() ==> res.values() == q.values(),
    {
        let m = IntMap::parse(json);
        let mo = match m.get("month") { Some(v) => v, None => today_month };
        let y = match m.get("year") { Some(v) => v, None => today_year };
        let d = match m.get("day") { Some(v) => v, None => today_day };
        let h = match m.get("hour") { Some(v) => v, None => 0 };
        let mi = match m.get("minute") { Some(v) => v, None => 0 };
        let se = match m.get("second") { Some(v) => v, None => 0 };
        let month = clamp(mo, 1, 12);
        let year = clamp(y, 2000, YEAR_MAX);
        let res = DateTimePicker {
            day: clamp(d, 1, 31),
            month,
            year,
            hour: clamp(h, 0, 23),
            minute: clamp(mi, 0, 59),
            second: clamp(se, 0, 59),
            day_max: 31,
        };
        proof {
            assert forall|q: DateTimePicker| #[trigger] q.json_spec() == json@ && q.valid() implies res.values() == q.values() by {
                days_in_month_bounds(q.month, q.year);
                let e = datetime_entries(q);
                lemma_datetime_entries(q);
                assert(json_object_text(e) == json@);
                assert(pair_views(m.entries@) == e);
                lemma_find_ascending(e, 0);
                lemma_find_ascending(e, 1);
                lemma_find_ascending(e, 2);
                lemma_find_ascending(e, 3);
                lemma_find_ascending(e, 4);
                lemma_find_ascending(e, 5);
                assert(int_decimal(q.day as int) == e[0].1);
                assert(int_decimal(q.hour as int) == e[1].1);
                assert(int_decimal(q.minute as int) == e[2].1);
                assert(int_decimal(q.month as int) == e[3].1);
                assert(int_decimal(q.second as int) == e[4].1);
                assert(int_decimal(q.year as int) == e[5].1);
            }
        }
        res
    }

    /// Limits the day field to the days of the selected month, lowering
    /// the day when it is past them.
    pub fn cap_day(&mut self)
        ensures
            final(self).day_max == days_in_month_spec(old(self).month, old(self).year),
            final(self).day == if old(self).day > days_in_month_spec(old(self).month, old(self).year) {
                days_in_month_spec(old(self).month, old(self).year)
            } else {
                old(self).day
            },
            final(self).month == old(self).month,
            final(self).year == old(self).year,
            final(self).hour == old(self).hour,
            final(self).minute == old(self).minute,
            final(self).second == old(self).second,
    {
        let max = days_in_month(self.month, self.year);
        self.day_max = max;
        if self.day > max {
            self.day = max;
        }
    }

    /// Sets the day, brought into the range the day field takes.
    pub fn set_day(&mut self, day: i64)
        requires
            1 <= old(self).day_max,
        ensures
            final(self).day == clamp_spec(day as int, 1, old(self).day_max as int),
            final(self).day_max == old(self).day_max,
            final(self).month == old(self).month,
            final(self).year == old(self).year,
            final(self).hour == old(self).hour,
            final(self).minute == old(self).minute,
            final(self).second == old(self).second,
    {
        self.day = clamp(day, 1, self.day_max);
    }

    /// Sets the month (brought into 1..=12) and caps the day to it.
    pub fn set_month(&mut self, month: i64)
        ensures
            old(self).valid() ==> final(self).valid(),
            final(self).month == clamp_spec(month as int, 1, 12),
            final(self).day_max == days_in_month_spec(final(self).month, old(self).year),
            final(self).day == if old(self).day > days_in_month_spec(final(self).month, old(self).year) {
                days_in_month_spec(final(self).month, old(self).year)
            } else {
                old(self).day
            },
            final(self).year == old(self).year,
            final(self).hour == old(self).hour,
            final(self).minute == old(self).minute,
            final(self).second == old(self).second,
    {
        self.month = clamp(month, 1, 12);
        self.cap_day();
    }

    /// Sets the year (brought into 2000..=100000) and caps the day to it.
    pub fn set_year(&mut self, year: i64)
        ensures
            old(self).valid() ==> final(self).valid(),
            final(self).year == clamp_spec(year as int, 2000, YEAR_MAX as int),
            final(self).day_max == days_in_month_spec(old(self).month, final(self).year),
            final(self).day == if old(self).day > days_in_month_spec(old(self).month, final(self).year) {
                days_in_month_spec(old(self).month, final(self).year)
            } else {
                old(self).day
            },
            final(self).month == old(self).month,
            final(self).hour == old(self).hour,
            final(self).minute == old(self).minute,
            final(self).second == old(self).second,
    {
        self.year = clamp(year, 2000, YEAR_MAX);
        self.cap_day();
    }

    /// Sets the time of day, each part brought into its range.
    pub fn set_time(&mut self, hour: i64, minute: i64, second: i64)
        ensures
            final(self).hour == clamp_spec(hour as int, 0, 23),
            final(self).minute == clamp_spec(minute as int, 0, 59),
            final(self).second == clamp_spec(second as int, 0, 59),
            final(self).day_max == old(self).day_max,
            final(self).day == old(self).day,
            final(self).month == old(self).month,
            final(self).year == old(self).year,
    {
        self.hour = clamp(hour, 0, 23);
        self.minute = clamp(minute, 0, 59);
        self.second = clamp(second, 0, 59);
    }

    /// A date and time picker is always completed.
    pub fn is_now_completed(&self) -> (res: bool)
        ensures
            res,
    {
        true
    }

    /// The JSON of the selected date and time.
    pub open spec fn json_spec(&self) -> Seq<char> {
        json_object_text(datetime_entries(*self))
    }

    /// Gets the current state of the picker in JSON.
    ///
    /// The format for DateTimePicker is:
    /// {
    ///     "day": integer,
    ///     "hour": integer,
    ///     "minute": integer,
    ///     "month": integer,
    ///     "second": integer,
    ///     "year": integer
    /// }
    pub fn get_json(&self) -> (res: String)
        ensures
            res@ == self.json_spec(),
    {
        let mut e: Vec<(String, String)> = Vec::new();
        e.push((String::from_str("day"), int_to_string(self.day)));
        e.push((String::from_str("hour"), int_to_string(self.hour)));
        e.push((String::from_str("minute"), int_to_string(self.minute)));
        e.push((String::from_str("month"), int_to_string(self.month)));
        e.push((String::from_str("second"), int_to_string(self.second)));
        e.push((String::from_str("year"), int_to_string(self.year)));
        assert(pair_views(e@) =~= datetime_entries(*self));
        write_json_object(&e)
    }

    /// "dd/mm/yyyy hh:mm:ss".
    pub open spec fn summary_spec(&self) -> Seq<char> {
        int_pad2(self.day as int) + "/"@ + int_pad2(self.month as int) + "/"@
            + int_decimal(self.year as int) + " "@ + int_pad2(self.hour as int) + ":"@
            + int_pad2(self.minute as int) + ":"@ + int_pad2(self.second as int)
    }

    /// Returns the selected date and time as "dd/mm/yyyy hh:mm:ss".
    pub fn get_summary_text(&self) -> (res: String)
        ensures
            res@ == self.summary_spec(),
    {
        let mut s = String::new();
        push_int_pad2(&mut s, self.day);
        s.append("/");
        push_int_pad2(&mut s, self.month);
        s.append("/");
        push_int(&mut s, self.year);
        s.append(" ");
        push_int_pad2(&mut s, self.hour);
        s.append(":");
        push_int_pad2(&mut s, self.minute);
        s.append(":");
        push_int_pad2(&mut s, self.second);
        s
    }
}

/// The values a days picker holds: which days of the week (Monday first)
/// are ticked.
#[derive(Clone, Copy, Debug, PartialEq, Eq)]
pub struct DaysPicker {
    pub days: [bool; 7],
}

/// The JSON key of the day at index `i` (0 is Monday): "1" to "7".
pub open spec fn day_key(i: int) -> Seq<char> {
    int_decimal(i + 1)
}

/// The short name of the day at index `i` (0 is Monday).
pub open spec fn day_short_name(i: int) -> Seq<char> {
    if i == 0 { "Mon"@ }
    else if i == 1 { "Tue"@ }
    else if i == 2 { "Wed"@ }
    else if i == 3 { "Thu"@ }
    else if i == 4 { "Fri"@ }
    else if i == 5 { "Sat"@ }
    else { "Sun"@ }
}

/// The short name of the day at index `i` (the days key `i + 1`) is the
/// first three letters of the weekday numbered `i + 1`, Monday being 1.
pub proof fn day_short_names_abbreviate_weekdays()
    ensures
        forall|i: int| 0 <= i < 7 ==> #[trigger] day_short_name(i) == weekday_name(i + 1).take(3),
{
    reveal_strlit("Mon");
    reveal_strlit("Monday");
    reveal_strlit("Tue");
    reveal_strlit("Tuesday");
    reveal_strlit("Wed");
    reveal_strlit("Wednesday");
    reveal_strlit("Thu");
    reveal_strlit("Thursday");
    reveal_strlit("Fri");
    reveal_strlit("Friday");
    reveal_strlit("Sat");
    reveal_strlit("Saturday");
    reveal_strlit("Sun");
    reveal_strlit("Sunday");
    assert("Mon"@ =~= "Monday"@.take(3));
    assert("Tue"@ =~= "Tuesday"@.take(3));
    assert("Wed"@ =~= "Wednesday"@.take(3));
    assert("Thu"@ =~= "Thursday"@.take(3));
    assert("Fri"@ =~= "Friday"@.take(3));
    assert("Sat"@ =~= "Saturday"@.take(3));
    assert("Sun"@ =~= "Sunday"@.take(3));
}

proof fn lemma_one_day_brief(days: Seq<bool>, i: int, k: int)
    requires
        days.len() == 7,
        0 <= i < 7,
        0 <= k <= 7,
        forall|j: int| 0 <= j < 7 ==> (days[j] <==> j == i),
    ensures
        days_brief(days, k) == if k > i { day_short_name(i) } else { Seq::<char>::empty() },
    decreases k,
{
    if k > 0 {
        lemma_one_day_brief(days, i, k - 1);
    }
}

/// A days picker with a single day ticked is summarised by the first three
/// letters of that weekday: with only index `i` ticked (0 is Monday), the
/// summary is the abbreviation of the weekday numbered `i + 1`.
pub proof fn single_day_picker_summary(days: Seq<bool>, i: int)
    requires
        days.len() == 7,
        0 <= i < 7,
        forall|j: int| 0 <= j < 7 ==> (days[j] <==> j == i),
    ensures
        days_brief(days, 7) == weekday_name(i + 1).take(3),
{
    lemma_one_day_brief(days, i, 7);
    day_short_names_abbreviate_weekdays();
}

fn day_short(i: usize) -> (res: &'static str)
    ensures
        res@ == day_short_name(i as int),
{
    if i == 0 { "Mon" }
    else if i == 1 { "Tue" }
    else if i == 2 { "Wed" }
    else if i == 3 { "Thu" }
    else if i == 4 { "Fri" }
    else if i == 5 { "Sat" }
    else { "Sun" }
}

/// The (key, JSON) pairs of the first `k` days: 1 for ticked, 0 otherwise.
pub open spec fn day_entries(days: Seq<bool>, k: int) -> Seq<(Seq<char>, Seq<char>)>
    decreases k,
{
    if k <= 0 {
        Seq::empty()
    } else {
        day_entries(days, k - 1).push((day_key(k - 1), int_text(if days[k - 1] { 1i64 } else { 0i64 })))
    }
}

/// The short names of the ticked days among the first `k`, joined by ", ".
pub open spec fn days_brief(days: Seq<bool>, k: int) -> Seq<char>
    decreases k,
{
    if k <= 0 {
        Seq::empty()
    } else if days[k - 1] {
        comma_join_spec(days_brief(days, k - 1), day_short_name(k - 1))
    } else {
        days_brief(days, k - 1)
    }
}

proof fn lemma_day_entries(days: Seq<bool>, k: int)
    requires
        0 <= k <= 7,
        days.len() == 7,
    ensures
        day_entries(days, k).len() == k,
        forall|i: int| 0 <= i < k ==> #[trigger] day_entries(days, k)[i]
            == (day_key(i), int_text(if days[i] { 1i64 } else { 0i64 })),
    decreases k,
{
    if k > 0 {
        lemma_day_entries(days, k - 1);
        let p = day_entries(days, k - 1);
        assert forall|i: int| 0 <= i < k - 1 implies #[trigger] day_entries(days, k)[i] == p[i] by {}
    }
}

proof fn lemma_day_keys(days: Seq<bool>)
    requires
        days.len() == 7,
    ensures
        keys_ascending(day_entries(days, 7)),
        all_int_texts(day_entries(days, 7)),
        forall|i: int| 0 <= i < 7 ==> #[trigger] day_entries(days, 7)[i].0 == day_key(i),
{
    lemma_day_entries(days, 7);
    let e = day_entries(days, 7);
    assert forall|i: int, j: int| 0 <= i < j < e.len() implies key_less(#[trigger] e[i].0, #[trigger] e[j].0) by {
        assert(day_key(i) == seq![digit_char(i + 1)]);
        assert(day_key(j) == seq![digit_char(j + 1)]);
    }
    assert forall|i: int| #![trigger e[i]] 0 <= i < e.len() implies exists|n: int| i64::MIN <= n <= i64::MAX && #[trigger] int_decimal(n) == e[i].1 by {
        if days[i] {
            assert(int_decimal(1) == e[i].1);
        } else {
            assert(int_decimal(0) == e[i].1);
        }
    }
}

impl DaysPicker {
    /// Opens a days picker with the days the JSON ticks: those whose entry
    /// is 1. A days picker opened with the JSON another gave ticks the same
    /// days.
    pub fn new(json: &str) -> (res: DaysPicker)
        ensures
            forall|i: int| 0 <= i < 7 ==> res.days[i] == (int_entry(json@, day_key(i)) == Some(1i64)),
            forall|q: DaysPicker| #[trigger] q.json_spec() == json@ ==> res.days@ == q.days@,
    {
        let m = IntMap::parse(json);
        let mut days = [false; 7];
        let mut i: usize = 0;
        while i < 7
            invariant
                i <= 7,
                m.reads(json@),
                forall|j: int| 0 <= j < i ==> days[j] == (int_entry(json@, day_key(j)) == Some(1i64)),
            decreases 7 - i,
        {
            let key = int_to_string(i as i64 + 1);
            let on = match m.get(key.as_str()) {
                Some(v) => v == 1,
                None => false,
            };
            assert(key@ == day_key(i as int));
            assert(int_entry(json@, key@) == match find_member(pair_views(m.entries@), key@) {
                Some(t) => text_as_i64(t),
                None => None,
            });
            days[i] = on;
            i = i + 1;
        }
        let res = DaysPicker { days };
        proof {
            assert forall|q: DaysPicker| #[trigger] q.json_spec() == json@ implies res.days@ == q.days@ by {
                let e = day_entries(q.days@, 7);
                lemma_day_keys(q.days@);
                lemma_day_entries(q.days@, 7);
                assert(pair_views(m.entries@) == e);
                assert forall|i: int| 0 <= i < 7 implies res.days@[i] == q.days@[i] by {
                    lemma_find_ascending(e, i);
                    let v: i64 = if q.days@[i] { 1 } else { 0 };
                    assert(int_decimal(v as int) == e[i].1);
                    assert(int_entry(json@, day_key(i)) == Some(v));
                }
                assert(res.days@ =~= q.days@);
            }
        }
        res
    }

    /// A days picker is always completed.
    pub fn is_now_completed(&self) -> (res: bool)
        ensures
            res,
    {
        true
    }

    /// The JSON of the ticked days.
    pub open spec fn json_spec(&self) -> Seq<char> {
        json_object_text(day_entries(self.days@, 7))
    }

    /// Gets the current state of the picker in JSON.
    ///
    /// The format for DaysPicker is:
    /// {
    ///     "1": 0,
    ///     "2": 1,
    ///     "7": 1
    /// }
    ///
    /// The key is the day of the week ("1" = Monday, "7" = Sunday); 1 means
    /// "repeat every week" and 0 "repeat never".
    pub fn get_json(&self) -> (res: String)
        ensures
            res@ == self.json_spec(),
    {
        let mut e: Vec<(String, String)> = Vec::new();
        let mut i: usize = 0;
        while i < 7
            invariant
                i <= 7,
                pair_views(e@) == day_entries(self.days@, i as int),
            decreases 7 - i,
        {
            let value = int_to_string(if self.days[i] { 1 } else { 0 });
            e.push((int_to_string(i as i64 + 1), value));
            assert(pair_views(e@) =~= day_entries(self.days@, i as int + 1));
            i = i + 1;
        }
        write_json_object(&e)
    }

    /// Returns the short names of the ticked days, comma separated.
    pub fn get_summary_text(&self) -> (res: String)
        ensures
            res@ == days_brief(self.days@, 7),
    {
        let mut result = String::new();
        let mut i: usize = 0;
        while i < 7
            invariant
                i <= 7,
                result@ == days_brief(self.days@, i as int),
            decreases 7 - i,
        {
            if self.days[i] {
                result = crate::text::concatenate_strs_with_comma(result, String::from_str(day_short(i)));
            }
            i = i + 1;
        }
        result
    }
}

/// The values a time picker holds.
#[derive(Clone, Copy, Debug, PartialEq, Eq, Structural)]
pub struct TimePicker {
    pub hour: i64,
    pub minute: i64,
    pub second: i64,
}

/// A time field's starting value: the JSON entry if there is one, else the
/// current time's, brought into `[0, hi]`.
pub open spec fn time_field(e: Option<i64>, now: i64, hi: int) -> i64 {
    match e {
        Some(v) => clamp_spec(v as int, 0, hi) as i64,
        None => clamp_spec(now as int, 0, hi) as i64,
    }
}

/// The pairs a time picker's JSON is written from.
pub open spec fn hms_entries(h: i64, m: i64, s: i64) -> Seq<(Seq<char>, Seq<char>)> {
    seq![("hour"@, int_text(h)), ("minute"@, int_text(m)), ("second"@, int_text(s))]
}

proof fn lemma_hms_entries(h: i64, m: i64, s: i64)
    ensures
        keys_ascending(hms_entries(h, m, s)),
        all_int_texts(hms_entries(h, m, s)),
        "hour"@ != "minute"@ && "hour"@ != "second"@ && "minute"@ != "second"@,
{
    reveal_strlit("hour");
    reveal_strlit("minute");
    reveal_strlit("second");
    let e = hms_entries(h, m, s);
    assert(key_less("hour"@, "minute"@));
    assert(key_less("hour"@, "second"@));
    assert(key_less("minute"@, "second"@));
    assert forall|i: int| #![trigger e[i]] 0 <= i < e.len() implies exists|n: int| i64::MIN <= n <= i64::MAX && #[trigger] int_decimal(n) == e[i].1 by {
        if i == 0 {
            assert(int_decimal(h as int) == e[i].1);
        } else if i == 1 {
            assert(int_decimal(m as int) == e[i].1);
        } else {
            assert(int_decimal(s as int) == e[i].1);
        }
    }
}

impl TimePicker {
    /// Whether each part of the time is in its field's range.
    pub open spec fn in_range(&self) -> bool {
        0 <= self.hour <= 23 && 0 <= self.minute <= 59 && 0 <= self.second <= 59
    }

    /// Opens a time picker with the time the JSON holds, each missing part
    /// taken from the current time.
    pub fn new(json: &str, now_hour: i64, now_minute: i64, now_second: i64) -> (res: TimePicker)
        ensures
            res.hour == time_field(int_entry(json@, "hour"@), now_hour, 23),
            res.minute == time_field(int_entry(json@, "minute"@), now_minute, 59),
            res.second == time_field(int_entry(json@, "second"@), now_second, 59),
            forall|q: TimePicker| #[trigger] q.json_spec() == json@ && q.in_range() ==> res == q,
    {
        let m = IntMap::parse(json);
        let h = match m.get("hour") { Some(h) => h, None => now_hour };
        let mi = match m.get("minute") { Some(v) => v, None => now_minute };
        let s = match m.get("second") { Some(v) => v, None => now_second };
        let res = TimePicker { hour: clamp(h, 0, 23), minute: clamp(mi, 0, 59), second: clamp(s, 0, 59) };
        proof {
            assert forall|q: TimePicker| #[trigger] q.json_spec() == json@ && q.in_range() implies res == q by {
                let e = hms_entries(q.hour, q.minute, q.second);
                lemma_hms_entries(q.hour, q.minute, q.second);
                assert(json_object_text(e) == json@);
                assert(pair_views(m.entries@) == e);
                lemma_find_ascending(e, 0);
                lemma_find_ascending(e, 1);
                lemma_find_ascending(e, 2);
                assert(int_decimal(q.hour as int) == e[0].1);
                assert(int_decimal(q.minute as int) == e[1].1);
                assert(int_decimal(q.second as int) == e[2].1);
            }
        }
        res
    }

    /// A time picker is always completed.
    pub fn is_now_completed(&self) -> (res: bool)
        ensures
            res,
    {
        true
    }

    /// The JSON of the selected time.
    pub open spec fn json_spec(&self) -> Seq<char> {
        json_object_text(seq![
            ("hour"@, int_text(self.hour)),
            ("minute"@, int_text(self.minute)),
            ("second"@, int_text(self.second)),
        ])
    }

    /// Gets the current state of the picker in JSON.
    ///
    /// The format for TimePicker is:
    /// {
    ///     "hour": integer,
    ///     "minute": integer,
    ///     "second": integer
    /// }
    pub fn get_json(&self) -> (res: String)
        ensures
            res@ == self.json_spec(),
    {
        let mut e: Vec<(String, String)> = Vec::new();
        e.push((String::from_str("hour"), int_to_string(self.hour)));
        e.push((String::from_str("minute"), int_to_string(self.minute)));
        e.push((String::from_str("second"), int_to_string(self.second)));
        assert(pair_views(e@) =~= seq![
            ("hour"@, int_text(self.hour)),
            ("minute"@, int_text(self.minute)),
            ("second"@, int_text(self.second)),
        ]);
        write_json_object(&e)
    }

    /// "hh:mm:ss".
    pub open spec fn summary_spec(&self) -> Seq<char> {
        int_pad2(self.hour as int) + ":"@ + int_pad2(self.minute as int) + ":"@
            + int_pad2(self.second as int)
    }

    /// Returns the selected time as "hh:mm:ss".
    pub fn get_summary_text(&self) -> (res: String)
        ensures
            res@ == self.summary_spec(),
    {
        let mut s = String::new();
        push_int_pad2(&mut s, self.hour);
        s.append(":");
        push_int_pad2(&mut s, self.minute);
        s.append(":");
        push_int_pad2(&mut s, self.second);
        s
    }
}

/// The value a string picker holds: the text entered.
pub struct StringPicker {
    pub text: String,
}

impl StringPicker {
    /// Opens a string picker with the text the JSON's "string" entry holds,
    /// or the empty text. A string picker opened with the JSON another gave
    /// holds the same text.
    pub fn new(json: &str) -> (res: StringPicker)
        ensures
            res.text@ == match str_entry(json@, "string"@) {
                Some(s) => s,
                None => Seq::empty(),
            },
            forall|q: StringPicker| #[trigger] q.json_spec() == json@ ==> res.text@ == q.text@,
    {
        match read_str_entry(json, "string") {
            Some(s) => StringPicker { text: s },
            None => StringPicker { text: String::new() },
        }
    }

    /// A string picker is always completed.
    pub fn is_now_completed(&self) -> (res: bool)
        ensures
            res,
    {
        true
    }

    /// The JSON of the entered text.
    pub open spec fn json_spec(&self) -> Seq<char> {
        json_object_text(seq![("string"@, json_quote(self.text@))])
    }

    /// Gets the current state of the picker in JSON.
    ///
    /// The format for StringPicker is:
    /// {
    ///     "string": string
    /// }
    pub fn get_json(&self) -> (res: String)
        ensures
            res@ == self.json_spec(),
    {
        let mut e: Vec<(String, String)> = Vec::new();
        e.push((String::from_str("string"), quote_json_string(self.text.as_str())));
        assert(pair_views(e@) =~= seq![("string"@, json_quote(self.text@))]);
        write_json_object(&e)
    }

    /// Returns the entered text in single quotes.
    pub fn get_summary_text(&self) -> (res: String)
        ensures
            res@ == "'"@ + self.text@ + "'"@,
    {
        let mut s = String::from_str("'");
        s.append(self.text.as_str());
        s.append("'");
        s
    }
}


/// The current local date and time, which pickers start from when their
/// JSON does not say otherwise.
#[derive(Clone, Copy, Debug, PartialEq, Eq, Structural)]
pub struct LocalNow {
    pub year: i64,
    pub month: i64,
    pub day: i64,
    pub hour: i64,
    pub minute: i64,
    pub second: i64,
}

/// A picker of any kind.
pub enum Picker {
    Frequency(FrequencyPicker),
    DateTime(DateTimePicker),
    Days(DaysPicker),
    Time(TimePicker),
    Text(StringPicker),
}

/// The days a days picker opened with `json` ticks.
pub open spec fn days_from_json(json: Seq<char>) -> Seq<bool> {
    Seq::new(7, |i: int| int_entry(json, day_key(i)) == Some(1i64))
}

/// The time picker opened with `json` at `now`.
pub open spec fn time_from_json(json: Seq<char>, now: LocalNow) -> TimePicker {
    TimePicker {
        hour: time_field(int_entry(json, "hour"@), now.hour, 23),
        minute: time_field(int_entry(json, "minute"@), now.minute, 59),
        second: time_field(int_entry(json, "second"@), now.second, 59),
    }
}

/// The date and time picker opened with `json` at `now`.
pub open spec fn datetime_at(json: Seq<char>, now: LocalNow) -> DateTimePicker {
    datetime_from_json(json, now.day, now.month, now.year)
}

/// The text a string picker opened with `json` holds.
pub open spec fn text_from_json(json: Seq<char>) -> Seq<char> {
    match str_entry(json, "string"@) {
        Some(s) => s,
        None => Seq::empty(),
    }
}

/// Whether the picker of kind `t` opened with `json` at `now` is completed.
pub open spec fn picker_completed(t: OptionType, json: Seq<char>, now: LocalNow) -> bool {
    match t {
        OptionType::Frequency => FrequencyPicker::from_json_spec(json).completed_spec(),
        _ => true,
    }
}

/// The JSON given by the picker of kind `t` opened with `json` at `now`.
pub open spec fn picker_json(t: OptionType, json: Seq<char>, now: LocalNow) -> Seq<char> {
    match t {
        OptionType::Frequency => FrequencyPicker::from_json_spec(json).json_spec(),
        OptionType::DateTime => datetime_at(json, now).json_spec(),
        OptionType::Days => json_object_text(day_entries(days_from_json(json), 7)),
        OptionType::Time => time_from_json(json, now).json_spec(),
        _ => json_object_text(seq![("string"@, json_quote(text_from_json(json)))]),
    }
}

/// The summary of the picker of kind `t` opened with `json` at `now`.
pub open spec fn picker_summary(t: OptionType, json: Seq<char>, now: LocalNow) -> Seq<char> {
    match t {
        OptionType::Frequency => FrequencyPicker::from_json_spec(json).summary_spec(),
        OptionType::DateTime => datetime_at(json, now).summary_spec(),
        OptionType::Days => days_brief(days_from_json(json), 7),
        OptionType::Time => time_from_json(json, now).summary_spec(),
        _ => "'"@ + text_from_json(json) + "'"@,
    }
}

impl Picker {
    /// Whether the picker is completed.
    pub open spec fn completed_spec(&self) -> bool {
        match self {
            Picker::Frequency(p) => p.completed_spec(),
            _ => true,
        }
    }

    /// The JSON the picker gives.
    pub open spec fn json_spec(&self) -> Seq<char> {
        match self {
            Picker::Frequency(p) => p.json_spec(),
            Picker::DateTime(p) => p.json_spec(),
            Picker::Days(p) => p.json_spec(),
            Picker::Time(p) => p.json_spec(),
            Picker::Text(p) => p.json_spec(),
        }
    }

    /// The summary the picker gives.
    pub open spec fn summary_spec(&self) -> Seq<char> {
        match self {
            Picker::Frequency(p) => p.summary_spec(),
            Picker::DateTime(p) => p.summary_spec(),
            Picker::Days(p) => days_brief(p.days@, 7),
            Picker::Time(p) => p.summary_spec(),
            Picker::Text(p) => "'"@ + p.text@ + "'"@,
        }
    }

    /// Returns whether or not the picker has been completed.
    pub fn is_now_completed(&self) -> (res: bool)
        ensures
            res == self.completed_spec(),
    {
        match self {
            Picker::Frequency(p) => p.is_now_completed(),
            Picker::DateTime(p) => p.is_now_completed(),
            Picker::Days(p) => p.is_now_completed(),
            Picker::Time(p) => p.is_now_completed(),
            Picker::Text(p) => p.is_now_completed(),
        }
    }

    /// Returns the JSONified selections the user made in the picker.
    pub fn get_json(&self) -> (res: String)
        ensures
            res@ == self.json_spec(),
    {
        match self {
            Picker::Frequency(p) => p.get_json(),
            Picker::DateTime(p) => p.get_json(),
            Picker::Days(p) => p.get_json(),
            Picker::Time(p) => p.get_json(),
            Picker::Text(p) => p.get_json(),
        }
    }

    /// Returns a human readable summary of the selections the user made
    /// in the picker.
    pub fn get_summary_text(&self) -> (res: String)
        ensures
            res@ == self.summary_spec(),
    {
        match self {
            Picker::Frequency(p) => p.get_summary_text(),
            Picker::DateTime(p) => p.get_summary_text(),
            Picker::Days(p) => p.get_summary_text(),
            Picker::Time(p) => p.get_summary_text(),
            Picker::Text(p) => p.get_summary_text(),
        }
    }
}

/// Whether `text` is the JSON that a picker of kind `t` gives once it is
/// completed.
pub open spec fn written_by_picker(t: OptionType, text: Seq<char>) -> bool {
    match t {
        OptionType::Frequency => exists|q: FrequencyPicker| #[trigger] q.json_spec() == text && q.written_form()
            && q.completed_spec(),
        OptionType::DateTime => exists|q: DateTimePicker| #[trigger] q.json_spec() == text && q.valid(),
        OptionType::Days => exists|q: DaysPicker| #[trigger] q.json_spec() == text,
        OptionType::Time => exists|q: TimePicker| #[trigger] q.json_spec() == text && q.in_range(),
        _ => exists|q: StringPicker| #[trigger] q.json_spec() == text,
    }
}

/// The JSON a completed picker gives is read back unchanged by `serde_json`.
pub proof fn lemma_written_is_canonical(t: OptionType, text: Seq<char>)
    requires
        written_by_picker(t, text),
    ensures
        canonical_value(text),
{
    match t {
        OptionType::Frequency => {
            let q = choose|q: FrequencyPicker| #[trigger] q.json_spec() == text && q.written_form()
                && q.completed_spec();
            lemma_frequency_keys();
            if q.hour != 0 || q.minute != 0 || q.second != 0 {
                let e = hms_entries(q.hour, q.minute, q.second);
                lemma_hms_entries(q.hour, q.minute, q.second);
                lemma_ints_canonical(e);
                assert(json_object_text(e) == text);
            } else {
                let (k, v) = if q.day != 0 {
                    ("day"@, q.day)
                } else if q.month != 0 {
                    ("month"@, q.month)
                } else {
                    ("year"@, q.year)
                };
                let e = seq![(k, int_text(v))];
                lemma_single_entry(k, v);
                lemma_ints_canonical(e);
                assert(json_object_text(e) == text);
            }
        },
        OptionType::DateTime => {
            let q = choose|q: DateTimePicker| #[trigger] q.json_spec() == text && q.valid();
            let e = datetime_entries(q);
            lemma_datetime_entries(q);
            lemma_ints_canonical(e);
            assert(json_object_text(e) == text);
        },
        OptionType::Days => {
            let q = choose|q: DaysPicker| #[trigger] q.json_spec() == text;
            let e = day_entries(q.days@, 7);
            lemma_day_keys(q.days@);
            lemma_ints_canonical(e);
            assert(json_object_text(e) == text);
        },
        OptionType::Time => {
            let q = choose|q: TimePicker| #[trigger] q.json_spec() == text && q.in_range();
            let e = hms_entries(q.hour, q.minute, q.second);
            lemma_hms_entries(q.hour, q.minute, q.second);
            lemma_ints_canonical(e);
            assert(json_object_text(e) == text);
        },
        _ => {
            let q = choose|q: StringPicker| #[trigger] q.json_spec() == text;
            let e = seq![("string"@, json_quote(q.text@))];
            assert(canonical_scalar(e[0].1));
            assert(all_canonical(e));
            assert(json_object_text(e) == text);
        },
    }
}

proof fn lemma_ints_canonical(e: Seq<(Seq<char>, Seq<char>)>)
    requires
        all_int_texts(e),
    ensures
        all_canonical(e),
{
    assert forall|i: int| 0 <= i < e.len() implies canonical_scalar(#[trigger] e[i].1) by {
        let n = choose|n: int| i64::MIN <= n <= i64::MAX && #[trigger] int_decimal(n) == e[i].1;
    }
}

/// Creates a picker of the provided type, pre-populated from the JSON;
/// pickers of unknown kinds are string pickers. A picker opened with the
/// JSON a completed picker of its kind gave is completed and gives the same
/// JSON.
pub fn create_picker(picker_type: OptionType, json: &str, now: &LocalNow) -> (res: Picker)
    ensures
        res.completed_spec() == picker_completed(picker_type, json@, *now),
        res.json_spec() == picker_json(picker_type, json@, *now),
        res.summary_spec() == picker_summary(picker_type, json@, *now),
        written_by_picker(picker_type, json@) ==> res.completed_spec() && res.json_spec() == json@,
{
    match picker_type {
        OptionType::Frequency => {
            let p = FrequencyPicker::new(json);
            proof {
                if written_by_picker(picker_type, json@) {
                    let q = choose|q: FrequencyPicker| #[trigger] q.json_spec() == json@ && q.written_form()
                        && q.completed_spec();
                    assert(p == q);
                }
            }
            Picker::Frequency(p)
        },
        OptionType::DateTime => {
            let p = DateTimePicker::new(json, now.day, now.month, now.year);
            proof {
                if written_by_picker(picker_type, json@) {
                    let q = choose|q: DateTimePicker| #[trigger] q.json_spec() == json@ && q.valid();
                    assert(p.values() == q.values());
                    assert(datetime_entries(p) == datetime_entries(q));
                }
            }
            Picker::DateTime(p)
        },
        OptionType::Days => {
            let p = DaysPicker::new(json);
            assert(p.days@ =~= days_from_json(json@));
            proof {
                if written_by_picker(picker_type, json@) {
                    let q = choose|q: DaysPicker| #[trigger] q.json_spec() == json@;
                    assert(p.days@ == q.days@);
                }
            }
            Picker::Days(p)
        },
        OptionType::Time => {
            let p = TimePicker::new(json, now.hour, now.minute, now.second);
            proof {
                if written_by_picker(picker_type, json@) {
                    let q = choose|q: TimePicker| #[trigger] q.json_spec() == json@ && q.in_range();
                    assert(p == q);
                }
            }
            Picker::Time(p)
        },
        _ => {
            let p = StringPicker::new(json);
            proof {
                if written_by_picker(picker_type, json@) {
                    let q = choose|q: StringPicker| #[trigger] q.json_spec() == json@;
                    assert(p.text@ == q.text@);
                }
            }
            Picker::Text(p)
        },
    }
}

} // verus!
