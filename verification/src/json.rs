//! JSON as the logic reads it. Parsing and printing are done by
//! `serde_json`; the library holds what a parsed value says at its top
//! level, with each nested value kept as its own JSON text.

use vstd::prelude::*;
use serde_json::Value;
use crate::text::{digit_char, int_decimal, string_views};

verus! {

/// The top level of a parsed JSON value. Nested values (array elements,
/// object members) are kept as their compact JSON text, which parses back
/// to the same value. An object's members come in the order `serde_json`'s
/// map keeps them (sorted by key), each key once.
pub enum JsonValue {
    Null,
    Bool(bool),
    /// A number, by the `i64` it holds: `None` for a float or for an
    /// integer out of the range of `i64`.
    Number(Option<i64>),
    Str(String),
    Array(Vec<String>),
    Object(Vec<(String, String)>),
}

/// What a `JsonValue` says, with its strings as character sequences.
pub enum JsonView {
    Null,
    Bool(bool),
    Number(Option<i64>),
    Str(Seq<char>),
    Array(Seq<Seq<char>>),
    Object(Seq<(Seq<char>, Seq<char>)>),
}

/// The views of a list of (key, text) pairs.
pub open spec fn pair_views(v: Seq<(String, String)>) -> Seq<(Seq<char>, Seq<char>)> {
    v.map_values(|p: (String, String)| (p.0@, p.1@))
}

impl View for JsonValue {
    type V = JsonView;

    open spec fn view(&self) -> JsonView {
        match self {
            JsonValue::Null => JsonView::Null,
            JsonValue::Bool(b) => JsonView::Bool(*b),
            JsonValue::Number(n) => JsonView::Number(*n),
            JsonValue::Str(s) => JsonView::Str(s@),
            JsonValue::Array(a) => JsonView::Array(string_views(a@)),
            JsonValue::Object(m) => JsonView::Object(pair_views(m@)),
        }
    }
}

/// The view of an optional parsed value.
pub open spec fn opt_json_view(v: Option<JsonValue>) -> Option<JsonView> {
    match v {
        Some(j) => Some(j@),
        None => None,
    }
}

/// What `serde_json` parses a text into (`None` when the text is not JSON).
pub uninterp spec fn json_parse(text: Seq<char>) -> Option<JsonView>;

/// The lower-case hexadecimal digit of `d` (0 to 15).
pub open spec fn hex_digit(d: int) -> char {
    if d < 10 { digit_char(d) }
    else if d == 10 { 'a' }
    else if d == 11 { 'b' }
    else if d == 12 { 'c' }
    else if d == 13 { 'd' }
    else if d == 14 { 'e' }
    else { 'f' }
}

/// How `serde_json` writes one character inside a string: `"` and `\` and
/// the control characters below U+0020 escaped (with the short escapes for
/// backspace, tab, line feed, form feed and carriage return, and `\u00XX`
/// with lower-case hexadecimal for the others), every other character as
/// it is.
pub open spec fn escape_char(c: char) -> Seq<char> {
    if c == '"' { seq!['\\', '"'] }
    else if c == '\\' { seq!['\\', '\\'] }
    else if c == '\u{8}' { seq!['\\', 'b'] }
    else if c == '\u{9}' { seq!['\\', 't'] }
    else if c == '\u{a}' { seq!['\\', 'n'] }
    else if c == '\u{c}' { seq!['\\', 'f'] }
    else if c == '\u{d}' { seq!['\\', 'r'] }
    else if (c as int) < 0x20 { seq!['\\', 'u', '0', '0', hex_digit((c as int) / 16), hex_digit((c as int) % 16)] }
    else { seq![c] }
}

/// The characters of `s`, each written as `escape_char` writes it.
pub open spec fn escape_all(s: Seq<char>) -> Seq<char>
    decreases s.len(),
{
    if s.len() == 0 {
        Seq::empty()
    } else {
        escape_all(s.drop_last()) + escape_char(s.last())
    }
}

/// What `serde_json` writes for a string: the string in double quotes,
/// with the characters JSON asks for escaped.
pub open spec fn json_quote(s: Seq<char>) -> Seq<char> {
    seq!['"'] + escape_all(s) + seq!['"']
}

/// What `serde_json` writes for an object built from (key, JSON text)
/// pairs, where each text is parsed and a text that is not JSON stands
/// for `null`, and a later pair replaces an earlier one with the same key.
pub uninterp spec fn json_object_text(entries: Seq<(Seq<char>, Seq<char>)>) -> Seq<char>;

/// Whether `a` comes before `b` in the order of Rust's `String`, which
/// `serde_json`'s map keeps its keys in: character by character, by code
/// point, a prefix first.
pub open spec fn key_less(a: Seq<char>, b: Seq<char>) -> bool
    decreases a.len(),
{
    if a.len() == 0 {
        b.len() > 0
    } else if b.len() == 0 {
        false
    } else if a[0] != b[0] {
        (a[0] as int) < (b[0] as int)
    } else {
        key_less(a.drop_first(), b.drop_first())
    }
}

/// Whether the keys of the pairs are in strictly increasing order.
pub open spec fn keys_ascending(e: Seq<(Seq<char>, Seq<char>)>) -> bool {
    forall|i: int, j: int| 0 <= i < j < e.len() ==> key_less(#[trigger] e[i].0, #[trigger] e[j].0)
}

/// A JSON text that `serde_json` writes back unchanged after reading it:
/// the decimal form of an `i64`, or a string as `serde_json` writes it.
pub open spec fn canonical_scalar(v: Seq<char>) -> bool {
    ||| exists|n: int| i64::MIN <= n <= i64::MAX && #[trigger] int_decimal(n) == v
    ||| exists|s: Seq<char>| #[trigger] json_quote(s) == v
}

/// Whether every text of the pairs is a canonical scalar.
pub open spec fn all_canonical(e: Seq<(Seq<char>, Seq<char>)>) -> bool {
    forall|i: int| 0 <= i < e.len() ==> canonical_scalar(#[trigger] e[i].1)
}

/// A JSON text that `serde_json` writes back unchanged after reading it: a
/// canonical scalar, or an object written from pairs with increasing keys
/// and canonical scalar texts.
pub open spec fn canonical_value(v: Seq<char>) -> bool {
    ||| canonical_scalar(v)
    ||| exists|e: Seq<(Seq<char>, Seq<char>)>| #[trigger] json_object_text(e) == v && keys_ascending(e) && all_canonical(e)
}

/// Whether every text of the pairs is a canonical value.
pub open spec fn all_canonical_values(e: Seq<(Seq<char>, Seq<char>)>) -> bool {
    forall|i: int| 0 <= i < e.len() ==> canonical_value(#[trigger] e[i].1)
}

/// Pairs of canonical scalars are pairs of canonical values.
pub proof fn lemma_scalars_are_values(e: Seq<(Seq<char>, Seq<char>)>)
    requires
        all_canonical(e),
    ensures
        all_canonical_values(e),
{
    assert forall|i: int| 0 <= i < e.len() implies canonical_value(#[trigger] e[i].1) by {
        assert(canonical_scalar(e[i].1));
    }
}

/// Parses `text` with `serde_json::from_str::<serde_json::Value>` and
/// returns the top level of the result (nested values printed back with
/// `to_string`), or `None` when `serde_json` refuses the text.
/// Claimed: the result is `json_parse` of the text. Beyond that, three
/// facts of reading back what `serde_json` writes: the decimal form of an
/// `i64` reads as that number; a string written by `serde_json` reads as
/// that string; and an object written from pairs whose keys are in
/// increasing order and whose texts are such numbers or strings reads as
/// those same pairs, also when a text is itself such an object. Nothing
/// else is claimed of what `json_parse` gives.
#[verifier::external_body]
pub fn parse_json(text: &str) -> (res: Option<JsonValue>)
    ensures
        opt_json_view(res) == json_parse(text@),
        forall|n: int| i64::MIN <= n <= i64::MAX && #[trigger] int_decimal(n) == text@
            ==> opt_json_view(res) == Some(JsonView::Number(Some(n as i64))),
        forall|s: Seq<char>| #[trigger] json_quote(s) == text@
            ==> opt_json_view(res) == Some(JsonView::Str(s)),
        forall|e: Seq<(Seq<char>, Seq<char>)>| #[trigger] json_object_text(e) == text@ && keys_ascending(e)
            && all_canonical_values(e) ==> opt_json_view(res) == Some(JsonView::Object(e)),
{
    match serde_json::from_str::<Value>(text) {
        Err(_) => None,
        Ok(Value::Null) => Some(JsonValue::Null),
        Ok(Value::Bool(b)) => Some(JsonValue::Bool(b)),
        Ok(Value::Number(n)) => Some(JsonValue::Number(n.as_i64())),
        Ok(Value::String(s)) => Some(JsonValue::Str(s)),
        Ok(Value::Array(a)) => Some(JsonValue::Array(a.iter().map(|e| e.to_string()).collect())),
        Ok(Value::Object(m)) => Some(JsonValue::Object(m.into_iter().map(|(k, v)| (k, v.to_string())).collect())),
    }
}

/// Writes a string as a JSON string literal with `serde_json::to_string`.
/// Claimed: the result is `json_quote` of the string, the escaping of
/// `serde_json`'s `format_escaped_str`; writing a `&str` cannot fail.
#[verifier::external_body]
pub fn quote_json_string(s: &str) -> (res: String)
    ensures
        res@ == json_quote(s@),
{
    serde_json::to_string(s).unwrap_or_default()
}

/// Builds a `serde_json::Map` from (key, JSON text) pairs, each text
/// parsed with `serde_json::from_str` (`Value::Null` where that fails),
/// and writes the object with `to_string`.
/// Claimed: the result is `json_object_text` of the pairs.
#[verifier::external_body]
pub fn write_json_object(entries: &Vec<(String, String)>) -> (res: String)
    ensures
        res@ == json_object_text(pair_views(entries@)),
{
    let mut map = serde_json::Map::new();
    for (k, v) in entries.iter() {
        map.insert(k.clone(), serde_json::from_str(v).unwrap_or_default());
    }
    Value::Object(map).to_string()
}

/// The text of the first member named `key`, if `v` is an object that has one.
pub open spec fn member_text(v: Option<JsonView>, key: Seq<char>) -> Option<Seq<char>> {
    match v {
        Some(JsonView::Object(m)) => find_member(m, key),
        _ => None,
    }
}

/// The text of the first pair in `m` whose key is `key`.
pub open spec fn find_member(m: Seq<(Seq<char>, Seq<char>)>, key: Seq<char>) -> Option<Seq<char>>
    decreases m.len(),
{
    if m.len() == 0 {
        None
    } else if m[0].0 == key {
        Some(m[0].1)
    } else {
        find_member(m.drop_first(), key)
    }
}

proof fn lemma_key_less_irreflexive(a: Seq<char>)
    ensures
        !key_less(a, a),
    decreases a.len(),
{
    if a.len() > 0 {
        lemma_key_less_irreflexive(a.drop_first());
    }
}

/// Keys in the order of `String` are distinct.
pub proof fn lemma_key_less_ne(a: Seq<char>, b: Seq<char>)
    requires
        key_less(a, b),
    ensures
        a != b,
{
    lemma_key_less_irreflexive(a);
}

/// Among pairs with increasing keys, looking up a pair's key finds that pair.
pub proof fn lemma_find_ascending(e: Seq<(Seq<char>, Seq<char>)>, i: int)
    requires
        keys_ascending(e),
        0 <= i < e.len(),
    ensures
        find_member(e, e[i].0) == Some(e[i].1),
    decreases i,
{
    if i > 0 {
        lemma_key_less_ne(e[0].0, e[i].0);
        let d = e.drop_first();
        assert(d[i - 1] == e[i]);
        assert forall|a: int, b: int| 0 <= a < b < d.len() implies key_less(#[trigger] d[a].0, #[trigger] d[b].0) by {
            assert(d[a] == e[a + 1] && d[b] == e[b + 1]);
        }
        lemma_find_ascending(d, i - 1);
    }
}

/// A key that no pair has is not found.
pub proof fn lemma_find_absent(e: Seq<(Seq<char>, Seq<char>)>, key: Seq<char>)
    requires
        forall|i: int| 0 <= i < e.len() ==> #[trigger] e[i].0 != key,
    ensures
        find_member(e, key) is None,
    decreases e.len(),
{
    if e.len() > 0 {
        let d = e.drop_first();
        assert forall|i: int| 0 <= i < d.len() implies #[trigger] d[i].0 != key by {
            assert(d[i] == e[i + 1]);
        }
        lemma_find_absent(d, key);
    }
}

/// The object members of a parsed text: the members when the text is a
/// JSON object, none otherwise (what parsing into `serde_json::Map` with
/// a fall-back to the empty map gives).
pub open spec fn object_members(text: Seq<char>) -> Seq<(Seq<char>, Seq<char>)> {
    match json_parse(text) {
        Some(JsonView::Object(m)) => m,
        _ => Seq::empty(),
    }
}

/// Returns whether two strings hold the same characters.
pub fn strings_equal(a: &String, b: &str) -> (res: bool)
    ensures
        res == (a@ == b@),
{
    let n = a.as_str().unicode_len();
    let m = b.unicode_len();
    if n != m {
        return false;
    }
    let mut i: usize = 0;
    while i < n
        invariant
            n == a@.len(),
            m == b@.len(),
            n == m,
            i <= n,
            forall|j: int| 0 <= j < i ==> a@[j] == b@[j],
        decreases n - i,
    {
        if a.as_str().get_char(i) != b.get_char(i) {
            return false;
        }
        i = i + 1;
    }
    assert(a@ =~= b@);
    true
}

/// Looks up the member named `key` among object members.
pub fn find_member_text(m: &Vec<(String, String)>, key: &str) -> (res: Option<String>)
    ensures
        opt_string_view(res) == find_member(pair_views(m@), key@),
{
    let mut i: usize = 0;
    assert(pair_views(m@).skip(0) =~= pair_views(m@));
    while i < m.len()
        invariant
            i <= m.len(),
            find_member(pair_views(m@), key@) == find_member(pair_views(m@).skip(i as int), key@),
        decreases m.len() - i,
    {
        assert(pair_views(m@).skip(i as int).drop_first() =~= pair_views(m@).skip(i as int + 1));
        if strings_equal(&m[i].0, key) {
            return Some(m[i].1.clone());
        }
        i = i + 1;
    }
    None
}

/// The view of an optional string.
pub open spec fn opt_string_view(s: Option<String>) -> Option<Seq<char>> {
    match s {
        Some(x) => Some(x@),
        None => None,
    }
}

/// Returns the text of the member `key` of the value `v`, if `v` is an
/// object that has it (`Value::get` with a key).
pub fn get_member(v: &Option<JsonValue>, key: &str) -> (res: Option<String>)
    ensures
        opt_string_view(res) == member_text(opt_json_view(*v), key@),
{
    match v {
        Some(JsonValue::Object(m)) => find_member_text(m, key),
        _ => None,
    }
}

/// Parses a text and returns its object members, or none when the text is
/// not a JSON object.
pub fn parse_object(text: &str) -> (res: Vec<(String, String)>)
    ensures
        pair_views(res@) == object_members(text@),
        forall|e: Seq<(Seq<char>, Seq<char>)>| #[trigger] json_object_text(e) == text@ && keys_ascending(e)
            && all_canonical_values(e) ==> pair_views(res@) == e,
{
    match parse_json(text) {
        Some(JsonValue::Object(m)) => m,
        _ => {
            let v: Vec<(String, String)> = Vec::new();
            assert(pair_views(v@) =~= Seq::empty());
            v
        }
    }
}

/// The `i64` a JSON text holds, if it is a number that fits (`as_i64`).
pub open spec fn text_as_i64(text: Seq<char>) -> Option<i64> {
    match json_parse(text) {
        Some(JsonView::Number(n)) => n,
        _ => None,
    }
}

/// The string a JSON text holds, if it is a string (`as_str`).
pub open spec fn text_as_str(text: Seq<char>) -> Option<Seq<char>> {
    match json_parse(text) {
        Some(JsonView::Str(s)) => Some(s),
        _ => None,
    }
}

/// Reads a JSON text as an `i64`.
pub fn as_i64(text: &str) -> (res: Option<i64>)
    ensures
        res == text_as_i64(text@),
        forall|n: int| i64::MIN <= n <= i64::MAX && #[trigger] int_decimal(n) == text@ ==> res == Some(n as i64),
{
    match parse_json(text) {
        Some(JsonValue::Number(n)) => n,
        _ => None,
    }
}

/// Reads a JSON text as a string.
pub fn as_str(text: &str) -> (res: Option<String>)
    ensures
        opt_string_view(res) == text_as_str(text@),
        forall|s: Seq<char>| #[trigger] json_quote(s) == text@ ==> opt_string_view(res) == Some(s),
{
    match parse_json(text) {
        Some(JsonValue::Str(s)) => Some(s),
        _ => None,
    }
}

} // verus!
