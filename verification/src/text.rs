//! Text building blocks: decimal numerals, joins, truncation and the few
//! string operations of the standard library that the engine relies on.

use vstd::prelude::*;
use vstd::string::StringExecFns;
use vstd::string::StrSliceExecFns;

verus! {

/// The character that writes the digit `d`.
pub open spec fn digit_char(d: nat) -> char {
    if d == 0 {
        '0'
    } else if d == 1 {
        '1'
    } else if d == 2 {
        '2'
    } else if d == 3 {
        '3'
    } else if d == 4 {
        '4'
    } else if d == 5 {
        '5'
    } else if d == 6 {
        '6'
    } else if d == 7 {
        '7'
    } else if d == 8 {
        '8'
    } else {
        '9'
    }
}

/// The decimal numeral of `n`, without leading zeros.
pub open spec fn decimal_text(n: nat) -> Seq<char>
    decreases n,
{
    if n < 10 {
        seq![digit_char(n)]
    } else {
        decimal_text(n / 10).push(digit_char(n % 10))
    }
}

/// The decimal numeral of `n`, padded with leading zeros to three digits.
pub open spec fn padded3_text(n: nat) -> Seq<char> {
    if n < 10 {
        seq!['0', '0'] + decimal_text(n)
    } else if n < 100 {
        seq!['0'] + decimal_text(n)
    } else {
        decimal_text(n)
    }
}

/// `n / d` rounded to the nearest integer, a tie going to the even neighbour.
pub open spec fn round_half_even(n: nat, d: nat) -> nat
    recommends
        d > 0,
{
    let q = n / d;
    let r = n % d;
    if 2 * r < d {
        q
    } else if 2 * r > d {
        q + 1
    } else if q % 2 == 0 {
        q
    } else {
        q + 1
    }
}

/// `n / d` written with one decimal place, rounded half to even.
pub open spec fn tenths_text(n: nat, d: nat) -> Seq<char>
    recommends
        d > 0,
{
    let t = round_half_even(10 * n, d);
    decimal_text(t / 10) + seq!['.', digit_char(t % 10)]
}

/// `n / d` written without decimal places, rounded half to even.
pub open spec fn rounded_text(n: nat, d: nat) -> Seq<char>
    recommends
        d > 0,
{
    decimal_text(round_half_even(n, d))
}

/// `s` cut to at most `max_len` characters: a longer text keeps its first
/// `max_len - 3` characters and ends in three dots.
pub open spec fn truncated_text(s: Seq<char>, max_len: nat) -> Seq<char>
    recommends
        s.len() > max_len ==> max_len >= 3,
{
    if s.len() > max_len {
        s.subrange(0, max_len - 3) + seq!['.', '.', '.']
    } else {
        s
    }
}

/// A text cut to `max_len` characters has at most `max_len` characters.
pub proof fn truncated_text_is_short(s: Seq<char>, max_len: nat)
    requires
        max_len >= 3,
    ensures
        truncated_text(s, max_len).len() <= max_len,
        s.len() <= max_len ==> truncated_text(s, max_len) == s,
{
}

/// Whether `pattern` occurs in `s` as a run of consecutive characters.
pub open spec fn occurs_in(pattern: Seq<char>, s: Seq<char>) -> bool {
    exists|i: int|
        0 <= i && i + pattern.len() <= s.len() && #[trigger] s.subrange(i, i + pattern.len())
            == pattern
}

/// Whether `s` begins with `prefix`.
pub open spec fn begins_with(s: Seq<char>, prefix: Seq<char>) -> bool {
    prefix.len() <= s.len() && s.subrange(0, prefix.len() as int) == prefix
}

/// The items of `items`, each between single quotes, separated by `", "`.
pub open spec fn quoted_list_text(items: Seq<Seq<char>>) -> Seq<char>
    decreases items.len(),
{
    if items.len() == 0 {
        Seq::empty()
    } else if items.len() == 1 {
        seq!['\''] + items[0] + seq!['\'']
    } else {
        quoted_list_text(items.drop_last()) + seq![',', ' ', '\''] + items.last() + seq!['\'']
    }
}

/// The items of `items`, separated by `", "`.
pub open spec fn comma_list_text(items: Seq<Seq<char>>) -> Seq<char>
    decreases items.len(),
{
    if items.len() == 0 {
        Seq::empty()
    } else if items.len() == 1 {
        items[0]
    } else {
        comma_list_text(items.drop_last()) + seq![',', ' '] + items.last()
    }
}

/// The texts that a vector of strings holds.
pub open spec fn texts_of(items: Seq<String>) -> Seq<Seq<char>> {
    items.map_values(|s: String| s@)
}

/// What `str::trim` leaves of a text.
pub uninterp spec fn trimmed(s: Seq<char>) -> Seq<char>;

/// Calls `str::trim`, which returns the text without its leading and trailing
/// white space. The result is named [`trimmed`]; nothing more is claimed of it
/// than that it depends on the text alone.
#[verifier::external_body]
pub(crate) fn trim_text(s: &str) -> (r: String)
    ensures
        r@ == trimmed(s@),
{
    s.trim().to_string()
}

/// Calls `str::contains` with a text pattern, which tells whether the pattern
/// matches a sub-slice of the text.
#[verifier::external_body]
pub(crate) fn text_contains(s: &str, pattern: &str) -> (r: bool)
    ensures
        r == occurs_in(pattern@, s@),
{
    s.contains(pattern)
}

/// Calls `str::starts_with` with a text pattern, which tells whether the
/// pattern matches a prefix of the text.
#[verifier::external_body]
pub(crate) fn text_starts_with(s: &str, prefix: &str) -> (r: bool)
    ensures
        r == begins_with(s@, prefix@),
{
    s.starts_with(prefix)
}

/// Whether two texts hold the same characters.
pub fn same_text(a: &str, b: &str) -> (r: bool)
    ensures
        r == (a@ == b@),
{
    let x = String::from_str(a);
    let y = String::from_str(b);
    x == y
}

fn digit_str(d: u128) -> (r: &'static str)
    requires
        d < 10,
    ensures
        r@ == seq![digit_char(d as nat)],
{
    proof {
        reveal_strlit("0");
        reveal_strlit("1");
        reveal_strlit("2");
        reveal_strlit("3");
        reveal_strlit("4");
        reveal_strlit("5");
        reveal_strlit("6");
        reveal_strlit("7");
        reveal_strlit("8");
        reveal_strlit("9");
    }
    let r = if d == 0 {
        "0"
    } else if d == 1 {
        "1"
    } else if d == 2 {
        "2"
    } else if d == 3 {
        "3"
    } else if d == 4 {
        "4"
    } else if d == 5 {
        "5"
    } else if d == 6 {
        "6"
    } else if d == 7 {
        "7"
    } else if d == 8 {
        "8"
    } else {
        "9"
    };
    r
}

/// Writes `n` as a decimal numeral.
pub fn decimal_string(n: u128) -> (r: String)
    ensures
        r@ == decimal_text(n as nat),
    decreases n,
{
    if n < 10 {
        String::from_str(digit_str(n))
    } else {
        let mut s = decimal_string(n / 10);
        s.append(digit_str(n % 10));
        s
    }
}

/// Writes `n` as a decimal numeral of at least three digits.
pub fn padded3_string(n: u128) -> (r: String)
    ensures
        r@ == padded3_text(n as nat),
{
    proof {
        reveal_strlit("00");
        reveal_strlit("0");
        reveal_strlit("");
    }
    let mut s = if n < 10 {
        String::from_str("00")
    } else if n < 100 {
        String::from_str("0")
    } else {
        String::from_str("")
    };
    let d = decimal_string(n);
    s.append(d.as_str());
    s
}

/// Divides `n` by `d`, rounding half to even.
pub fn divide_half_even(n: u128, d: u128) -> (r: u128)
    requires
        d > 0,
    ensures
        r == round_half_even(n as nat, d as nat),
{
    let q = n / d;
    let rem = n % d;
    // 2 * rem < d  <==>  rem < d - rem
    if rem < d - rem {
        q
    } else if rem > d - rem {
        assert(q + 1 <= u128::MAX) by (nonlinear_arith)
            requires
                q == n / d,
                n % d > 0,
                d > 1,
                n <= u128::MAX,
        {
        }
        q + 1
    } else if q % 2 == 0 {
        q
    } else {
        assert(q + 1 <= u128::MAX) by (nonlinear_arith)
            requires
                q == n / d,
                n % d > 0,
                d > 1,
                n <= u128::MAX,
        {
        }
        q + 1
    }
}

/// Writes `n / d` with one decimal place, rounded half to even.
pub fn tenths_string(n: u64, d: u64) -> (r: String)
    requires
        d > 0,
    ensures
        r@ == tenths_text(n as nat, d as nat),
{
    let t = divide_half_even(10 * (n as u128), d as u128);
    let mut s = decimal_string(t / 10);
    proof {
        reveal_strlit(".");
    }
    s.append(".");
    s.append(digit_str(t % 10));
    s
}

/// Writes `n / d` without decimal places, rounded half to even.
pub fn rounded_string(n: u64, d: u64) -> (r: String)
    requires
        d > 0,
    ensures
        r@ == rounded_text(n as nat, d as nat),
{
    decimal_string(divide_half_even(n as u128, d as u128))
}

/// Cuts `s` to at most `max_len` characters; a longer text keeps its first
/// `max_len - 3` characters and ends in `...`. A text can only be cut to
/// three characters or more.
pub fn truncate(s: &str, max_len: usize) -> (r: String)
    requires
        s@.len() > max_len ==> max_len >= 3,
    ensures
        r@ == truncated_text(s@, max_len as nat),
{
    let n = s.unicode_len();
    if n > max_len {
        let head = s.substring_char(0, max_len - 3);
        let mut out = String::from_str(head);
        proof {
            reveal_strlit("...");
        }
        out.append("...");
        out
    } else {
        String::from_str(s)
    }
}

/// Joins `items`, each between single quotes, with `", "`.
pub fn quoted_list(items: &[String]) -> (r: String)
    ensures
        r@ == quoted_list_text(texts_of(items@)),
{
    let mut out = String::from_str("");
    proof {
        reveal_strlit("");
        reveal_strlit("'");
        reveal_strlit(", '");
    }
    let mut i: usize = 0;
    while i < items.len()
        invariant
            i <= items.len(),
            out@ == quoted_list_text(texts_of(items@).take(i as int)),
        decreases items.len() - i,
    {
        let ghost before = texts_of(items@).take(i as int);
        let ghost after = texts_of(items@).take(i + 1);
        if i == 0 {
            out.append("'");
        } else {
            out.append(", '");
        }
        out.append(items[i].as_str());
        out.append("'");
        proof {
            reveal_strlit("'");
            reveal_strlit(", '");
            assert(after.drop_last() =~= before);
        }
        i = i + 1;
    }
    assert(texts_of(items@).take(items.len() as int) =~= texts_of(items@));
    out
}

/// Joins `items` with `", "`.
pub fn comma_list(items: &[String]) -> (r: String)
    ensures
        r@ == comma_list_text(texts_of(items@)),
{
    let mut out = String::from_str("");
    proof {
        reveal_strlit("");
    }
    let mut i: usize = 0;
    while i < items.len()
        invariant
            i <= items.len(),
            out@ == comma_list_text(texts_of(items@).take(i as int)),
        decreases items.len() - i,
    {
        let ghost before = texts_of(items@).take(i as int);
        let ghost after = texts_of(items@).take(i + 1);
        if i > 0 {
            out.append(", ");
        }
        out.append(items[i].as_str());
        proof {
            reveal_strlit(", ");
            assert(after.drop_last() =~= before);
        }
        i = i + 1;
    }
    assert(texts_of(items@).take(items.len() as int) =~= texts_of(items@));
    out
}

} // verus!
