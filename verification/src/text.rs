//! Text building blocks: decimal numbers, list joining and splitting a
//! line into words.

use vstd::prelude::*;

verus! {

/// Appends one character to a string (`String::push`).
/// Claimed: the string afterwards is the old one with `c` at the end.
#[verifier::external_body]
pub(crate) fn push_char(s: &mut String, c: char)
    ensures
        final(s)@ == old(s)@.push(c),
{
    s.push(c);
}

/// The English name of the day of the week numbered `n`, from Monday as 1
/// to Sunday as 7 (the numbering of ISO 8601).
pub open spec fn weekday_name(n: int) -> Seq<char> {
    if n == 1 { "Monday"@ }
    else if n == 2 { "Tuesday"@ }
    else if n == 3 { "Wednesday"@ }
    else if n == 4 { "Thursday"@ }
    else if n == 5 { "Friday"@ }
    else if n == 6 { "Saturday"@ }
    else { "Sunday"@ }
}

/// The character of a decimal digit.
pub open spec fn digit_char(d: int) -> char {
    if d == 0 { '0' }
    else if d == 1 { '1' }
    else if d == 2 { '2' }
    else if d == 3 { '3' }
    else if d == 4 { '4' }
    else if d == 5 { '5' }
    else if d == 6 { '6' }
    else if d == 7 { '7' }
    else if d == 8 { '8' }
    else { '9' }
}

/// The decimal digits of a natural number, without leading zeros.
pub open spec fn nat_decimal(n: nat) -> Seq<char>
    decreases n,
{
    if n < 10 {
        seq![digit_char(n as int)]
    } else {
        nat_decimal(n / 10).push(digit_char((n % 10) as int))
    }
}

/// The number a sequence of decimal digits stands for, most significant
/// digit first.
pub open spec fn digits_value(s: Seq<char>) -> int
    decreases s.len(),
{
    if s.len() == 0 {
        0
    } else {
        10 * digits_value(s.drop_last()) + (s.last() as int - '0' as int)
    }
}

/// The decimal form of a natural number is made of the digits '0' to '9',
/// starts with a non-zero digit unless the number is 0, and reads back as
/// the number.
pub proof fn decimal_reads_back(n: nat)
    ensures
        nat_decimal(n).len() > 0,
        forall|i: int| 0 <= i < nat_decimal(n).len() ==> '0' <= #[trigger] nat_decimal(n)[i] <= '9',
        n > 0 ==> nat_decimal(n)[0] != '0',
        digits_value(nat_decimal(n)) == n,
    decreases n,
{
    if n < 10 {
        let s = nat_decimal(n);
        assert(s.drop_last() =~= Seq::<char>::empty());
        assert(digit_char(n as int) as int - '0' as int == n);
        assert(digits_value(s) == 10 * digits_value(s.drop_last()) + (s.last() as int - '0' as int));
    } else {
        decimal_reads_back(n / 10);
        let d = (n % 10) as int;
        assert(digit_char(d) as int - '0' as int == d);
        assert(n == 10 * (n / 10) + n % 10);
        let p = nat_decimal(n / 10);
        let s = nat_decimal(n);
        assert(s.drop_last() =~= p);
        assert forall|i: int| 0 <= i < s.len() implies '0' <= #[trigger] s[i] <= '9' by {
            if i < p.len() {
                assert(s[i] == p[i]);
            }
        }
        assert(s[0] == p[0]);
        assert(s.last() == digit_char(d));
        assert(digits_value(s) == 10 * digits_value(s.drop_last()) + (s.last() as int - '0' as int));
        assert(digits_value(s) == 10 * (n / 10) + d);
    }
}

/// An integer as Rust's `{}` formatting writes it.
pub open spec fn int_decimal(n: int) -> Seq<char> {
    if n < 0 {
        seq!['-'] + nat_decimal((-n) as nat)
    } else {
        nat_decimal(n as nat)
    }
}

/// An integer as Rust's `{:02}` formatting writes it: at least two
/// characters, padded with a zero after any sign.
pub open spec fn int_pad2(n: int) -> Seq<char> {
    if 0 <= n < 10 {
        seq!['0'] + nat_decimal(n as nat)
    } else {
        int_decimal(n)
    }
}

fn digit(d: u64) -> (c: char)
    requires
        d < 10,
    ensures
        c == digit_char(d as int),
{
    if d == 0 { '0' }
    else if d == 1 { '1' }
    else if d == 2 { '2' }
    else if d == 3 { '3' }
    else if d == 4 { '4' }
    else if d == 5 { '5' }
    else if d == 6 { '6' }
    else if d == 7 { '7' }
    else if d == 8 { '8' }
    else { '9' }
}

fn push_nat_decimal(s: &mut String, n: u64)
    ensures
        final(s)@ == old(s)@ + nat_decimal(n as nat),
    decreases n,
{
    if n >= 10 {
        push_nat_decimal(s, n / 10);
    }
    push_char(s, digit(n % 10));
    assert(final(s)@ =~= old(s)@ + nat_decimal(n as nat));
}

/// Appends the decimal form of `n` to `s`.
pub fn push_int(s: &mut String, n: i64)
    ensures
        final(s)@ == old(s)@ + int_decimal(n as int),
{
    if n < 0 {
        push_char(s, '-');
        let mag: u64 = if n == i64::MIN { 9223372036854775808u64 } else { (-n) as u64 };
        push_nat_decimal(s, mag);
        assert(final(s)@ =~= old(s)@ + int_decimal(n as int));
    } else {
        push_nat_decimal(s, n as u64);
    }
}

/// Appends `n` formatted with at least two characters (`{:02}`).
pub fn push_int_pad2(s: &mut String, n: i64)
    ensures
        final(s)@ == old(s)@ + int_pad2(n as int),
{
    if 0 <= n && n < 10 {
        push_char(s, '0');
        push_nat_decimal(s, n as u64);
        assert(final(s)@ =~= old(s)@ + int_pad2(n as int));
    } else {
        push_int(s, n);
    }
}

/// The decimal form of an integer, as a new string.
pub fn int_to_string(n: i64) -> (res: String)
    ensures
        res@ == int_decimal(n as int),
{
    let mut s = String::new();
    push_int(&mut s, n);
    assert(s@ =~= int_decimal(n as int));
    s
}

/// `first` and `second` joined by ", ", or `second` alone when `first` is empty.
pub open spec fn comma_join_spec(first: Seq<char>, second: Seq<char>) -> Seq<char> {
    if first.len() == 0 {
        second
    } else {
        first + ", "@ + second
    }
}

/// Concatenates two strings - if the first string is non-empty, it inserts
/// a comma and a space between the two. Otherwise, it returns the second string.
pub fn concatenate_strs_with_comma(first: String, second: String) -> (res: String)
    ensures
        res@ == comma_join_spec(first@, second@),
{
    if first.as_str().is_empty() {
        second
    } else {
        let mut r = first;
        r.append(", ");
        r.append(second.as_str());
        r
    }
}

/// The items joined by ", ".
pub open spec fn join_commas(items: Seq<Seq<char>>) -> Seq<char>
    decreases items.len(),
{
    if items.len() == 0 {
        Seq::empty()
    } else if items.len() == 1 {
        items[0]
    } else {
        join_commas(items.drop_last()) + ", "@ + items.last()
    }
}

/// The items joined by ", ", with the last two joined by " and ".
pub open spec fn join_with_and(items: Seq<Seq<char>>) -> Seq<char> {
    if items.len() <= 1 {
        join_commas(items)
    } else {
        join_commas(items.drop_last()) + " and "@ + items.last()
    }
}

/// The views of a list of strings.
pub open spec fn string_views(v: Seq<String>) -> Seq<Seq<char>> {
    v.map_values(|s: String| s@)
}

/// Concatenates all items in a list with commas, with the final two items being
/// separated by "and".
pub fn concatenate_list_with_and(list: &Vec<String>) -> (res: String)
    ensures
        res@ == join_with_and(string_views(list@)),
{
    let ghost items = string_views(list@);
    let n = list.len();
    if n == 0 {
        assert(items.len() == 0);
        return String::new();
    }
    let mut result = list[0].clone();
    assert(items.take(1) =~= seq![items[0]]);
    let mut i: usize = 1;
    while i < n - 1
        invariant
            1 <= i <= n,
            n >= 2 ==> i <= n - 1,
            n == list.len(),
            items == string_views(list@),
            result@ == join_commas(items.take(i as int)),
        decreases n - i,
    {
        result.append(", ");
        result.append(list[i].as_str());
        assert(items.take(i as int + 1).drop_last() =~= items.take(i as int));
        i = i + 1;
    }
    if n >= 2 {
        assert(i == n - 1);
        result.append(" and ");
        result.append(list[i].as_str());
        assert(items.drop_last() =~= items.take(i as int));
    } else {
        assert(items =~= items.take(1));
    }
    result
}

/// Unicode's White_Space property, which Rust's `char::is_whitespace` tests.
pub open spec fn is_white_space(c: char) -> bool {
    ||| '\u{9}' <= c <= '\u{d}'
    ||| c == ' '
    ||| c == '\u{85}'
    ||| c == '\u{a0}'
    ||| c == '\u{1680}'
    ||| '\u{2000}' <= c <= '\u{200a}'
    ||| c == '\u{2028}'
    ||| c == '\u{2029}'
    ||| c == '\u{202f}'
    ||| c == '\u{205f}'
    ||| c == '\u{3000}'
}

/// Returns whether `c` has Unicode's White_Space property.
pub fn is_whitespace(c: char) -> (res: bool)
    ensures
        res == is_white_space(c),
{
    ('\u{9}' <= c && c <= '\u{d}') || c == ' ' || c == '\u{85}' || c == '\u{a0}'
        || c == '\u{1680}' || ('\u{2000}' <= c && c <= '\u{200a}') || c == '\u{2028}'
        || c == '\u{2029}' || c == '\u{202f}' || c == '\u{205f}' || c == '\u{3000}'
}

/// The words found so far when reading `s` from the left: the finished
/// words, and the word being read.
pub open spec fn words_state(s: Seq<char>) -> (Seq<Seq<char>>, Seq<char>)
    decreases s.len(),
{
    if s.len() == 0 {
        (Seq::empty(), Seq::empty())
    } else {
        let (done, cur) = words_state(s.drop_last());
        let c = s.last();
        if is_white_space(c) {
            if cur.len() > 0 {
                (done.push(cur), Seq::empty())
            } else {
                (done, cur)
            }
        } else {
            (done, cur.push(c))
        }
    }
}

/// The maximal runs of characters without white space in `s`, in order
/// (what `str::split_whitespace` yields).
pub open spec fn split_words(s: Seq<char>) -> Seq<Seq<char>> {
    let (done, cur) = words_state(s);
    if cur.len() > 0 {
        done.push(cur)
    } else {
        done
    }
}

/// Every word found in `s` is non-empty and holds no white space.
pub proof fn words_have_no_white_space(s: Seq<char>)
    ensures
        forall|i: int| 0 <= i < split_words(s).len() ==> {
            &&& (#[trigger] split_words(s)[i]).len() > 0
            &&& forall|j: int| 0 <= j < split_words(s)[i].len() ==> !is_white_space(split_words(s)[i][j])
        },
{
    lemma_words_state(s);
}

proof fn lemma_words_state(s: Seq<char>)
    ensures
        forall|i: int| 0 <= i < words_state(s).0.len() ==> {
            &&& (#[trigger] words_state(s).0[i]).len() > 0
            &&& forall|j: int| 0 <= j < words_state(s).0[i].len() ==> !is_white_space(words_state(s).0[i][j])
        },
        forall|j: int| 0 <= j < words_state(s).1.len() ==> !is_white_space(#[trigger] words_state(s).1[j]),
    decreases s.len(),
{
    if s.len() > 0 {
        let p = s.drop_last();
        lemma_words_state(p);
        let done = words_state(p).0;
        let cur = words_state(p).1;
        let c = s.last();
        if is_white_space(c) {
            if cur.len() > 0 {
                assert(words_state(s).0 == done.push(cur));
                assert forall|i: int| 0 <= i < done.push(cur).len() implies {
                    &&& (#[trigger] done.push(cur)[i]).len() > 0
                    &&& forall|j: int| 0 <= j < done.push(cur)[i].len() ==> !is_white_space(done.push(cur)[i][j])
                } by {
                    if i < done.len() {
                        assert(done.push(cur)[i] == done[i]);
                    }
                }
            }
        } else {
            assert(words_state(s).1 == cur.push(c));
            assert forall|j: int| 0 <= j < cur.push(c).len() implies !is_white_space(#[trigger] cur.push(c)[j]) by {
                if j < cur.len() {
                    assert(cur.push(c)[j] == cur[j]);
                }
            }
        }
    }
}

/// Splits a string into its words: the maximal runs of characters
/// without white space.
pub fn split_whitespace(s: &str) -> (res: Vec<String>)
    ensures
        string_views(res@) == split_words(s@),
{
    let n = s.unicode_len();
    let mut done: Vec<String> = Vec::new();
    let mut cur = String::new();
    let mut i: usize = 0;
    while i < n
        invariant
            n == s@.len(),
            i <= n,
            (string_views(done@), cur@) == words_state(s@.take(i as int)),
        decreases n - i,
    {
        let c = s.get_char(i);
        assert(s@.take(i as int + 1).drop_last() =~= s@.take(i as int));
        if is_whitespace(c) {
            if !cur.as_str().is_empty() {
                let w = cur;
                done.push(w);
                cur = String::new();
                assert(string_views(done@) =~= words_state(s@.take(i as int + 1)).0);
            }
        } else {
            push_char(&mut cur, c);
        }
        i = i + 1;
    }
    assert(s@.take(n as int) =~= s@);
    if !cur.as_str().is_empty() {
        done.push(cur);
        assert(string_views(done@) =~= split_words(s@));
    }
    done
}

} // verus!
