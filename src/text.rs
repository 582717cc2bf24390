use vstd::prelude::*;
use vstd::string::*;

verus! {

/// Whether `s` equals the literal `word`, compared character by character.
pub fn text_equals(s: &str, word: &str) -> (r: bool)
    ensures
        r == (s@ == word@),
{
    let n = s.unicode_len();
    let m = word.unicode_len();
    if n != m {
        return false;
    }
    let mut i: usize = 0;
    while i < n
        invariant
            n == s@.len(),
            m == word@.len(),
            n == m,
            i <= n,
            forall|k: int| 0 <= k < i ==> s@[k] == word@[k],
        decreases n - i,
    {
        if s.get_char(i) != word.get_char(i) {
            return false;
        }
        i = i + 1;
    }
    assert(s@ =~= word@);
    true
}

pub open spec fn is_digit(c: char) -> bool {
    '0' <= c <= '9'
}

pub open spec fn digits_value(s: Seq<char>) -> nat
    decreases s.len(),
{
    if s.len() == 0 {
        0
    } else {
        digits_value(s.drop_last()) * 10 + (s.last() as nat - '0' as nat) as nat
    }
}

/// The digits of an unsigned decimal, after an optional leading `+`.
pub open spec fn unsigned_digits(s: Seq<char>) -> Seq<char> {
    if s.len() > 0 && s[0] == '+' {
        s.skip(1)
    } else {
        s
    }
}

/// An unsigned decimal as `FromStr` of Rust's unsigned integers reads it: an
/// optional `+`, then one or more digits, with a value of at most `max`.
pub open spec fn decimal_of(s: Seq<char>, max: nat) -> Option<nat> {
    let d = unsigned_digits(s);
    if d.len() > 0 && (forall|i: int| 0 <= i < d.len() ==> is_digit(#[trigger] d[i]))
        && digits_value(d) <= max {
        Some(digits_value(d))
    } else {
        None
    }
}

/// Reads an unsigned decimal of at most `max`.
pub fn parse_decimal(s: &str, max: u64) -> (r: Option<u64>)
    ensures
        r is Some <==> decimal_of(s@, max as nat) is Some,
        r matches Some(v) ==> decimal_of(s@, max as nat) == Some(v as nat),
{
    let n = s.unicode_len();
    let start: usize = if n > 0 && s.get_char(0) == '+' {
        1
    } else {
        0
    };
    let ghost d = unsigned_digits(s@);
    assert(d =~= s@.subrange(start as int, n as int));
    if start >= n {
        return None;
    }
    let cap: u128 = max as u128 + 1;
    let mut value: u128 = 0;
    let mut i: usize = start;
    while i < n
        invariant
            n == s@.len(),
            start <= i <= n,
            cap == max + 1,
            d == s@.subrange(start as int, n as int),
            d == unsigned_digits(s@),
            forall|k: int| start <= k < i ==> is_digit(#[trigger] s@[k]),
            value as nat == if digits_value(s@.subrange(start as int, i as int)) < cap {
                digits_value(s@.subrange(start as int, i as int))
            } else {
                cap as nat
            },
        decreases n - i,
    {
        let c = s.get_char(i);
        if c < '0' || c > '9' {
            proof {
                let j = i - start;
                assert(d[j] == s@[i as int]);
                assert(!is_digit(d[j]));
                assert(0 <= j < d.len());
                assert(!(forall|k: int| 0 <= k < d.len() ==> is_digit(#[trigger] d[k])));
            }
            return None;
        }
        let ghost prev = s@.subrange(start as int, i as int);
        assert(s@.subrange(start as int, i + 1).drop_last() =~= prev);
        let digit: u128 = (c as u128) - ('0' as u128);
        if value >= cap {
            value = cap;
        } else {
            let next = value * 10 + digit;
            value = if next >= cap {
                cap
            } else {
                next
            };
        }
        i = i + 1;
    }
    assert(s@.subrange(start as int, n as int) =~= d);
    assert forall|k: int| 0 <= k < d.len() implies is_digit(#[trigger] d[k]) by {
        assert(d[k] == s@[k + start]);
    }
    if value <= max as u128 {
        Some(value as u64)
    } else {
        None
    }
}

/// Index of the first `-` at or after `i`, or the length when there is none.
pub open spec fn first_dash(s: Seq<char>, i: int) -> int
    decreases s.len() - i,
{
    if i >= s.len() {
        s.len() as int
    } else if s[i] == '-' {
        i
    } else {
        first_dash(s, i + 1)
    }
}

pub proof fn lemma_first_dash_bounds(s: Seq<char>, i: int)
    requires
        0 <= i <= s.len(),
    ensures
        i <= first_dash(s, i) <= s.len(),
    decreases s.len() - i,
{
    if i < s.len() && s[i] != '-' {
        lemma_first_dash_bounds(s, i + 1);
    }
}

/// Finds the end of the dash-separated token that starts at `start`.
pub fn find_dash(s: &str, start: usize) -> (r: usize)
    requires
        start <= s@.len(),
    ensures
        r == first_dash(s@, start as int),
        start <= r <= s@.len(),
{
    let n = s.unicode_len();
    let mut i: usize = start;
    while i < n && s.get_char(i) != '-'
        invariant
            n == s@.len(),
            start <= i <= n,
            first_dash(s@, start as int) == first_dash(s@, i as int),
        decreases n - i,
    {
        i = i + 1;
    }
    i
}

/// A count of hundredths written with two decimals, as `12.05`.
pub open spec fn hundredths_text(h: nat) -> Seq<char> {
    let frac = h % 100;
    decimal_text(h / 100) + seq!['.'] + if frac < 10 {
        seq!['0'] + decimal_text(frac)
    } else {
        decimal_text(frac)
    }
}

/// Writes a count of hundredths with two decimals.
pub fn hundredths_string(h: u128) -> (r: String)
    ensures
        r@ == hundredths_text(h as nat),
{
    proof {
        reveal_strlit(".");
        reveal_strlit("0");
        assert("."@ =~= seq!['.']);
        assert("0"@ =~= seq!['0']);
    }
    let whole = u128_text(h / 100);
    let frac = h % 100;
    let with_point = whole.concat(".");
    if frac < 10 {
        with_point.concat("0").concat(u128_text(frac).as_str())
    } else {
        with_point.concat(u128_text(frac).as_str())
    }
}

/// A count of tenths written with one decimal, as `12.5`.
pub open spec fn tenths_text(t: nat) -> Seq<char> {
    decimal_text(t / 10) + seq!['.'] + decimal_text(t % 10)
}

/// Writes a count of tenths with one decimal.
pub fn tenths_string(t: u128) -> (r: String)
    ensures
        r@ == tenths_text(t as nat),
{
    proof {
        reveal_strlit(".");
        assert("."@ =~= seq!['.']);
    }
    u128_text(t / 10).concat(".").concat(u128_text(t % 10).as_str())
}

/// The decimal digits of `n`, most significant first.
pub open spec fn decimal_text(n: nat) -> Seq<char>
    decreases n,
{
    if n < 10 {
        seq![digit_char(n)]
    } else {
        decimal_text(n / 10).push(digit_char(n % 10))
    }
}

pub open spec fn digit_char(d: nat) -> char {
    if d == 0 { '0' }
    else if d == 1 { '1' }
    else if d == 2 { '2' }
    else if d == 3 { '3' }
    else if d == 4 { '4' }
    else if d == 5 { '5' }
    else if d == 6 { '6' }
    else if d == 7 { '7' }
    else if d == 8 { '8' }
    else { '9' }
}

/// Relies on `u128`'s `Display` (through `to_string`): base ten, no sign, no padding.
#[verifier::external_body]
pub fn u128_text(n: u128) -> (r: String)
    ensures
        r@ == decimal_text(n as nat),
{
    n.to_string()
}

} // verus!
