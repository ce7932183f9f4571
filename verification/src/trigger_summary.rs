//! Summaries of triggers as the one-line subtitles the GUI shows.

use vstd::prelude::*;
use crate::common::{AutomationTrigger, T_CERTAIN_DAYS, T_REPEAT_EVERY};
use crate::json::{
    find_member, find_member_text, json_parse, member_text, object_members, opt_json_view,
    pair_views, parse_json, parse_object, text_as_i64, as_i64, get_member,
    JsonValue, JsonView,
};
use crate::text::{
    comma_join_spec, concatenate_list_with_and, concatenate_strs_with_comma, int_decimal,
    int_pad2, join_commas, join_with_and, push_int, push_int_pad2, string_views, int_to_string, weekday_name,
};

verus! {

/// A count of a time unit: "1 year", "2 years", and "-1 years" when the
/// JSON text is not an `i64`.
pub open spec fn time_unit_spec(text: Seq<char>, name: Seq<char>) -> Seq<char> {
    let n: i64 = match text_as_i64(text) {
        Some(n) => n,
        None => -1i64,
    };
    if n == 1 {
        int_decimal(n as int) + " "@ + name
    } else {
        int_decimal(n as int) + " "@ + name + "s"@
    }
}

/// Appends a unit of time to a provided JSON value (expected as an i64).
///
/// # Errors
/// Writes -1 in place of the value if the value provided is not an i64.
pub fn get_time_unit_as_str(v: &str, name: &str) -> (res: String)
    ensures
        res@ == time_unit_spec(v@, name@),
{
    let as_int: i64 = match as_i64(v) {
        Some(n) => n,
        None => -1i64,
    };
    let mut s = String::new();
    push_int(&mut s, as_int);
    s.append(" ");
    s.append(name);
    if as_int != 1 {
        s.append("s");
    }
    s
}

/// The unit of time named `unit` in the frequency value `f`, if present.
pub open spec fn freq_unit(f: Option<JsonView>, unit: Seq<char>) -> Option<Seq<char>> {
    member_text(f, unit)
}

/// The hours, minutes and seconds of a frequency, each one present
/// written out and joined by ", ".
pub open spec fn hms_spec(f: Option<JsonView>) -> Seq<char> {
    let h = match freq_unit(f, "hour"@) {
        Some(t) => time_unit_spec(t, "hour"@),
        None => Seq::empty(),
    };
    let hm = match freq_unit(f, "minute"@) {
        Some(t) => comma_join_spec(h, time_unit_spec(t, "minute"@)),
        None => h,
    };
    match freq_unit(f, "second"@) {
        Some(t) => comma_join_spec(hm, time_unit_spec(t, "second"@)),
        None => hm,
    }
}

/// A frequency before the fall-back for an empty result: a whole number of
/// years, or else months, or else days, or else hours, minutes and seconds.
pub open spec fn frequency_text(root: Seq<(Seq<char>, Seq<char>)>, key: Seq<char>) -> Seq<char> {
    match find_member(root, key) {
        None => Seq::empty(),
        Some(ft) => {
            let f = json_parse(ft);
            if freq_unit(f, "year"@) is Some {
                time_unit_spec(freq_unit(f, "year"@)->0, "year"@)
            } else if freq_unit(f, "month"@) is Some {
                time_unit_spec(freq_unit(f, "month"@)->0, "month"@)
            } else if freq_unit(f, "day"@) is Some {
                time_unit_spec(freq_unit(f, "day"@)->0, "day"@)
            } else {
                hms_spec(f)
            }
        },
    }
}

/// The summary of the frequency stored under `key` in the root object.
pub open spec fn frequency_summary(root: Seq<(Seq<char>, Seq<char>)>, key: Seq<char>) -> Seq<char> {
    let t = frequency_text(root, key);
    if t.len() == 0 {
        "[invalid frequency]"@
    } else {
        t
    }
}

fn unit_text(f: &Option<JsonValue>, unit: &str, name: &str) -> (res: Option<String>)
    ensures
        match freq_unit(opt_json_view(*f), unit@) {
            Some(t) => res is Some && res->0@ == time_unit_spec(t, name@),
            None => res is None,
        },
{
    match get_member(f, unit) {
        Some(t) => Some(get_time_unit_as_str(t.as_str(), name)),
        None => None,
    }
}

/// Summarises the JSON provided by a frequency picker, given the root
/// JSON and the key at which it is stored.
pub fn summarise_frequency_picker(root_json: &Vec<(String, String)>, key: &str) -> (res: String)
    ensures
        res@ == frequency_summary(pair_views(root_json@), key@),
{
    let mut frequency_string = String::new();
    match find_member_text(root_json, key) {
        None => {},
        Some(ft) => {
            let f = parse_json(ft.as_str());
            let ghost fv = opt_json_view(f);
            if let Some(y) = unit_text(&f, "year", "year") {
                frequency_string = y;
            } else if let Some(mo) = unit_text(&f, "month", "month") {
                frequency_string = mo;
            } else if let Some(d) = unit_text(&f, "day", "day") {
                frequency_string = d;
            } else {
                if let Some(h) = unit_text(&f, "hour", "hour") {
                    frequency_string = h;
                }
                if let Some(m) = unit_text(&f, "minute", "minute") {
                    frequency_string = concatenate_strs_with_comma(frequency_string, m);
                }
                if let Some(s) = unit_text(&f, "second", "second") {
                    frequency_string = concatenate_strs_with_comma(frequency_string, s);
                }
                assert(frequency_string@ == hms_spec(fv));
            }
        },
    }
    if frequency_string.as_str().is_empty() {
        frequency_string = String::from_str("[invalid frequency]");
    }
    frequency_string
}

/// A field of a date or time value: its `i64`, or -1 when it is missing or
/// not an `i64`.
pub open spec fn field_or_invalid(v: Option<JsonView>, name: Seq<char>) -> i64 {
    match member_text(v, name) {
        Some(t) => match text_as_i64(t) {
            Some(n) => n,
            None => -1i64,
        },
        None => -1i64,
    }
}

fn read_field(v: &Option<JsonValue>, name: &str) -> (res: i64)
    ensures
        res == field_or_invalid(opt_json_view(*v), name@),
{
    match get_member(v, name) {
        Some(t) => match as_i64(t.as_str()) {
            Some(n) => n,
            None => -1i64,
        },
        None => -1i64,
    }
}

/// "dd/mm/yyyy", or "[invalid date]" when a part is missing.
pub open spec fn date_text(v: Option<JsonView>) -> Seq<char> {
    let y = field_or_invalid(v, "year"@);
    let m = field_or_invalid(v, "month"@);
    let d = field_or_invalid(v, "day"@);
    if y == -1 || m == -1 || d == -1 {
        "[invalid date]"@
    } else {
        int_pad2(d as int) + "/"@ + int_pad2(m as int) + "/"@ + int_decimal(y as int)
    }
}

/// "hh:mm:ss", or "[invalid time]" when a part is missing.
pub open spec fn time_text(v: Option<JsonView>) -> Seq<char> {
    let h = field_or_invalid(v, "hour"@);
    let m = field_or_invalid(v, "minute"@);
    let s = field_or_invalid(v, "second"@);
    if h == -1 || m == -1 || s == -1 {
        "[invalid time]"@
    } else {
        int_pad2(h as int) + ":"@ + int_pad2(m as int) + ":"@ + int_pad2(s as int)
    }
}

fn write_time(v: &Option<JsonValue>) -> (res: String)
    ensures
        res@ == time_text(opt_json_view(*v)),
{
    let hour = read_field(v, "hour");
    let minute = read_field(v, "minute");
    let second = read_field(v, "second");
    if hour == -1 || minute == -1 || second == -1 {
        return String::from_str("[invalid time]");
    }
    let mut s = String::new();
    push_int_pad2(&mut s, hour);
    s.append(":");
    push_int_pad2(&mut s, minute);
    s.append(":");
    push_int_pad2(&mut s, second);
    s
}

/// The date and time texts of the datetime stored under `key`: both empty
/// when there is none.
pub open spec fn datetime_summary(root: Seq<(Seq<char>, Seq<char>)>, key: Seq<char>) -> (Seq<char>, Seq<char>) {
    match find_member(root, key) {
        None => (Seq::empty(), Seq::empty()),
        Some(t) => (date_text(json_parse(t)), time_text(json_parse(t))),
    }
}

/// Summarises the JSON provided by a datetime picker, given the root
/// JSON and the key at which it is stored.
pub fn summarise_datetime_picker(root_json: &Vec<(String, String)>, key: &str) -> (res: (String, String))
    ensures
        (res.0@, res.1@) == datetime_summary(pair_views(root_json@), key@),
{
    match find_member_text(root_json, key) {
        None => (String::new(), String::new()),
        Some(t) => {
            let v = parse_json(t.as_str());
            let year = read_field(&v, "year");
            let month = read_field(&v, "month");
            let day = read_field(&v, "day");
            let date_string = if year == -1 || month == -1 || day == -1 {
                String::from_str("[invalid date]")
            } else {
                let mut s = String::new();
                push_int_pad2(&mut s, day);
                s.append("/");
                push_int_pad2(&mut s, month);
                s.append("/");
                push_int(&mut s, year);
                s
            };
            (date_string, write_time(&v))
        },
    }
}

/// The time text of the time stored under `key`; empty when there is none.
pub open spec fn time_summary(root: Seq<(Seq<char>, Seq<char>)>, key: Seq<char>) -> Seq<char> {
    match find_member(root, key) {
        None => Seq::empty(),
        Some(t) => time_text(json_parse(t)),
    }
}

/// Summarises the JSON provided by a time picker, given the root
/// JSON and the key at which it is stored.
pub fn summarise_time_picker(root_json: &Vec<(String, String)>, key: &str) -> (res: String)
    ensures
        res@ == time_summary(pair_views(root_json@), key@),
{
    match find_member_text(root_json, key) {
        None => String::new(),
        Some(t) => write_time(&parse_json(t.as_str())),
    }
}

/// The name of the `i`th day of the week (0 is Monday), in the plural.
pub open spec fn day_name_spec(i: int) -> Seq<char> {
    if i == 0 { "Mondays"@ }
    else if i == 1 { "Tuesdays"@ }
    else if i == 2 { "Wednesdays"@ }
    else if i == 3 { "Thursdays"@ }
    else if i == 4 { "Fridays"@ }
    else if i == 5 { "Saturdays"@ }
    else { "Sundays"@ }
}

/// The day a summary names for the days key `i + 1` ("1" to "7") is the
/// plural of the weekday numbered `i + 1`, Monday being 1: the key "2" is
/// summarised as "Tuesdays".
pub proof fn day_names_are_plural_weekdays()
    ensures
        forall|i: int| 0 <= i < 7 ==> #[trigger] day_name_spec(i) == weekday_name(i + 1) + "s"@,
{
    reveal_strlit("s");
    reveal_strlit("Mondays");
    reveal_strlit("Monday");
    reveal_strlit("Tuesdays");
    reveal_strlit("Tuesday");
    reveal_strlit("Wednesdays");
    reveal_strlit("Wednesday");
    reveal_strlit("Thursdays");
    reveal_strlit("Thursday");
    reveal_strlit("Fridays");
    reveal_strlit("Friday");
    reveal_strlit("Saturdays");
    reveal_strlit("Saturday");
    reveal_strlit("Sundays");
    reveal_strlit("Sunday");
    assert("Mondays"@ =~= "Monday"@ + "s"@);
    assert("Tuesdays"@ =~= "Tuesday"@ + "s"@);
    assert("Wednesdays"@ =~= "Wednesday"@ + "s"@);
    assert("Thursdays"@ =~= "Thursday"@ + "s"@);
    assert("Fridays"@ =~= "Friday"@ + "s"@);
    assert("Saturdays"@ =~= "Saturday"@ + "s"@);
    assert("Sundays"@ =~= "Sunday"@ + "s"@);
}

fn day_name(i: usize) -> (res: &'static str)
    ensures
        res@ == day_name_spec(i as int),
{
    if i == 0 { "Mondays" }
    else if i == 1 { "Tuesdays" }
    else if i == 2 { "Wednesdays" }
    else if i == 3 { "Thursdays" }
    else if i == 4 { "Fridays" }
    else if i == 5 { "Saturdays" }
    else { "Sundays" }
}

/// Whether the day numbered `day` (1 is Monday) is switched on in the days
/// object `m`: its member is the number 1.
pub open spec fn day_enabled(m: Seq<(Seq<char>, Seq<char>)>, day: int) -> bool {
    match find_member(m, int_decimal(day)) {
        Some(t) => text_as_i64(t) == Some(1i64),
        None => false,
    }
}

/// Which days of the week (index 0 is Monday) the days object switches on.
pub open spec fn enabled_days(m: Seq<(Seq<char>, Seq<char>)>) -> Seq<bool> {
    Seq::new(7, |i: int| day_enabled(m, i + 1))
}

/// How many entries of `e` are true.
pub open spec fn count_true(e: Seq<bool>) -> nat
    decreases e.len(),
{
    if e.len() == 0 {
        0
    } else {
        count_true(e.drop_last()) + if e.last() { 1nat } else { 0nat }
    }
}

/// The names of the days among the first `k` whose flag in `e` is `want`.
pub open spec fn day_names_where(e: Seq<bool>, want: bool, k: int) -> Seq<Seq<char>>
    decreases k,
{
    if k <= 0 {
        Seq::empty()
    } else if e[k - 1] == want {
        day_names_where(e, want, k - 1).push(day_name_spec(k - 1))
    } else {
        day_names_where(e, want, k - 1)
    }
}

/// The summary of a set of days of the week.
pub open spec fn days_text(e: Seq<bool>) -> Seq<char> {
    let n = count_true(e);
    if n == 7 {
        "Every day"@
    } else if n >= 5 {
        "Every day, except "@ + join_with_and(day_names_where(e, false, 7))
    } else {
        "On "@ + join_with_and(day_names_where(e, true, 7))
    }
}

/// The summary of the days stored under `key`; empty when there are none
/// or they are not an object.
pub open spec fn days_summary(root: Seq<(Seq<char>, Seq<char>)>, key: Seq<char>) -> Seq<char> {
    match find_member(root, key) {
        None => Seq::empty(),
        Some(t) => match json_parse(t) {
            Some(JsonView::Object(m)) => days_text(enabled_days(m)),
            _ => Seq::empty(),
        },
    }
}

proof fn lemma_one_day_prefix(e: Seq<bool>, i: int, k: int)
    requires
        e.len() == 7,
        0 <= i < 7,
        0 <= k <= 7,
        forall|j: int| 0 <= j < 7 ==> (e[j] <==> j == i),
    ensures
        count_true(e.take(k)) == if k > i { 1nat } else { 0nat },
        day_names_where(e, true, k) == if k > i { seq![day_name_spec(i)] } else { Seq::<Seq<char>>::empty() },
    decreases k,
{
    if k > 0 {
        lemma_one_day_prefix(e, i, k - 1);
        assert(e.take(k).drop_last() =~= e.take(k - 1));
        if k - 1 == i {
            assert(Seq::<Seq<char>>::empty().push(day_name_spec(i)) =~= seq![day_name_spec(i)]);
        }
    }
}

/// A trigger on a single day of the week is summarised as "On" and the
/// plural of that weekday: with only the day `i` (0 is Monday, the days
/// key `i + 1`) switched on, the summary is "On " followed by the name of
/// the weekday numbered `i + 1` and "s".
pub proof fn single_day_summary(e: Seq<bool>, i: int)
    requires
        e.len() == 7,
        0 <= i < 7,
        forall|j: int| 0 <= j < 7 ==> (e[j] <==> j == i),
    ensures
        days_text(e) == "On "@ + weekday_name(i + 1) + "s"@,
{
    lemma_one_day_prefix(e, i, 7);
    assert(e.take(7) =~= e);
    day_names_are_plural_weekdays();
    let names = seq![day_name_spec(i)];
    assert(join_with_and(names) == join_commas(names));
    assert(join_commas(names) == names[0]);
    assert("On "@ + day_name_spec(i) =~= "On "@ + weekday_name(i + 1) + "s"@);
}

fn days_text_of(enabled: &Vec<bool>) -> (res: String)
    requires
        enabled@.len() == 7,
    ensures
        res@ == days_text(enabled@),
{
    let mut num_enabled: usize = 0;
    let mut on: Vec<String> = Vec::new();
    let mut off: Vec<String> = Vec::new();
    let mut i: usize = 0;
    while i < 7
        invariant
            i <= 7,
            enabled@.len() == 7,
            num_enabled == count_true(enabled@.take(i as int)),
            num_enabled <= i,
            string_views(on@) == day_names_where(enabled@, true, i as int),
            string_views(off@) == day_names_where(enabled@, false, i as int),
        decreases 7 - i,
    {
        assert(enabled@.take(i as int + 1).drop_last() =~= enabled@.take(i as int));
        if enabled[i] {
            num_enabled = num_enabled + 1;
            on.push(String::from_str(day_name(i)));
            assert(string_views(on@) =~= day_names_where(enabled@, true, i as int + 1));
        } else {
            off.push(String::from_str(day_name(i)));
            assert(string_views(off@) =~= day_names_where(enabled@, false, i as int + 1));
        }
        i = i + 1;
    }
    assert(enabled@.take(7) =~= enabled@);
    if num_enabled == 7 {
        String::from_str("Every day")
    } else if num_enabled >= 5 {
        let mut s = String::from_str("Every day, except ");
        let names = concatenate_list_with_and(&off);
        s.append(names.as_str());
        s
    } else {
        let mut s = String::from_str("On ");
        let names = concatenate_list_with_and(&on);
        s.append(names.as_str());
        s
    }
}

fn read_enabled_days(m: &Vec<(String, String)>) -> (res: Vec<bool>)
    ensures
        res@ == enabled_days(pair_views(m@)),
{
    let mut enabled: Vec<bool> = Vec::new();
    let mut i: i64 = 1;
    while i <= 7
        invariant
            1 <= i <= 8,
            enabled@.len() == i - 1,
            forall|j: int| 0 <= j < i - 1 ==> enabled@[j] == day_enabled(pair_views(m@), j + 1),
        decreases 8 - i,
    {
        let key = int_to_string(i);
        let on = match find_member_text(m, key.as_str()) {
            Some(t) => match as_i64(t.as_str()) {
                Some(n) => n == 1,
                None => false,
            },
            None => false,
        };
        enabled.push(on);
        i = i + 1;
    }
    assert(enabled@ =~= enabled_days(pair_views(m@)));
    enabled
}

/// Summarises the JSON provided by a days picker, given the root
/// JSON and the key at which it is stored.
pub fn summarise_days_picker(root_json: &Vec<(String, String)>, key: &str) -> (res: String)
    ensures
        res@ == days_summary(pair_views(root_json@), key@),
{
    match find_member_text(root_json, key) {
        None => String::new(),
        Some(t) => match parse_json(t.as_str()) {
            Some(JsonValue::Object(m)) => {
                let enabled = read_enabled_days(&m);
                days_text_of(&enabled)
            },
            _ => String::new(),
        },
    }
}

/// The subtitle the GUI shows for a trigger.
pub open spec fn trigger_summary_spec(trig_type: i64, details: Seq<char>) -> Seq<char> {
    let root = object_members(details);
    if trig_type == T_REPEAT_EVERY {
        let (date, time) = datetime_summary(root, "start-date"@);
        "Repeat every "@ + frequency_summary(root, "frequency"@) + ", starting on "@ + date
            + " at "@ + time
    } else if trig_type == T_CERTAIN_DAYS {
        days_summary(root, "days-active"@) + ", at "@ + time_summary(root, "time"@)
    } else {
        Seq::empty()
    }
}

/// Summarises the provided trigger into a format used for the subtitle in
/// the GUI.
pub fn summarise(t: &AutomationTrigger) -> (res: String)
    ensures
        res@ == trigger_summary_spec(t.trig_type, t.details@),
{
    if t.trig_type == T_REPEAT_EVERY {
        let root = parse_object(t.details.as_str());
        let frequency_string = summarise_frequency_picker(&root, "frequency");
        let (date_string, time_string) = summarise_datetime_picker(&root, "start-date");
        let mut s = String::from_str("Repeat every ");
        s.append(frequency_string.as_str());
        s.append(", starting on ");
        s.append(date_string.as_str());
        s.append(" at ");
        s.append(time_string.as_str());
        s
    } else if t.trig_type == T_CERTAIN_DAYS {
        let root = parse_object(t.details.as_str());
        let days_string = summarise_days_picker(&root, "days-active");
        let time_string = summarise_time_picker(&root, "time");
        let mut s = days_string;
        s.append(", at ");
        s.append(time_string.as_str());
        s
    } else {
        String::new()
    }
}

} // verus!
