//! Verified decimal rendering for measurement formatters.
//!
//! Every human-readable formatter in this crate prints a value with two
//! decimal places followed by a unit symbol. The value arrives as a whole
//! number of hundredths; `format_fixed2` renders sign, integer part, a dot,
//! and exactly two fractional digits, and appends the caller's suffix.

use vstd::prelude::*;
use vstd::string::StringExecFns;

verus! {

/// The decimal digit character for `d` in 0..10.
pub open spec fn spec_digit(d: int) -> char {
    if d == 0 {
        '0'
    } else if d == 1 {
        '1'
    } else if d == 2 {
        '2'
    } else if d == 3 {
        '3'
    } else if d == 4 {
        '4'
    } else if d == 5 {
        '5'
    } else if d == 6 {
        '6'
    } else if d == 7 {
        '7'
    } else if d == 8 {
        '8'
    } else {
        '9'
    }
}

/// Decimal digit sequence of a natural number, most significant first,
/// without leading zeros (a lone zero for 0).
pub open spec fn spec_nat_digits(n: nat) -> Seq<char>
    decreases n,
{
    if n < 10 {
        seq![spec_digit(n as int)]
    } else {
        spec_nat_digits(n / 10) + seq![spec_digit((n % 10) as int)]
    }
}

/// Rendering of a signed count of hundredths with two decimal places:
/// optional minus sign, integer part, '.', and two fractional digits.
pub open spec fn spec_fixed2(h: int) -> Seq<char> {
    let m = if h < 0 {
        -h
    } else {
        h
    };
    let sign = if h < 0 {
        seq!['-']
    } else {
        Seq::<char>::empty()
    };
    sign + spec_nat_digits((m / 100) as nat) + seq!['.'] + seq![
        spec_digit((m / 10) % 10),
        spec_digit(m % 10),
    ]
}

/// Appends the single decimal digit `d` to `s`.
fn push_digit(s: &mut String, d: u64)
    requires
        d < 10,
    ensures
        final(s)@ == old(s)@ + seq![spec_digit(d as int)],
{
    proof {
        reveal_strlit("0");
        reveal_strlit("1");
        reveal_strlit("2");
        reveal_strlit("3");
        reveal_strlit("4");
        reveal_strlit("5");
        reveal_strlit("6");
        reveal_strlit("7");
        reveal_strlit("8");
        reveal_strlit("9");
    }
    let ds: &str = if d == 0 {
        "0"
    } else if d == 1 {
        "1"
    } else if d == 2 {
        "2"
    } else if d == 3 {
        "3"
    } else if d == 4 {
        "4"
    } else if d == 5 {
        "5"
    } else if d == 6 {
        "6"
    } else if d == 7 {
        "7"
    } else if d == 8 {
        "8"
    } else {
        "9"
    };
    assert(ds@ =~= seq![spec_digit(d as int)]);
    s.append(ds);
}

/// Appends the decimal digits of `n`, most significant first.
pub fn append_u64(s: &mut String, n: u64)
    ensures
        final(s)@ == old(s)@ + spec_nat_digits(n as nat),
    decreases n,
{
    if n >= 10 {
        append_u64(s, n / 10);
        push_digit(s, n % 10);
        assert(s@ =~= old(s)@ + spec_nat_digits(n as nat));
    } else {
        push_digit(s, n);
    }
}

/// Renders `h` hundredths with two decimal places and appends `suffix`.
pub fn format_fixed2(h: i64, suffix: &str) -> (r: String)
    requires
        -i64::MAX <= h,
    ensures
        r@ == spec_fixed2(h as int) + suffix@,
{
    proof {
        reveal_strlit("-");
        reveal_strlit(".");
    }
    let mut s = String::new();
    let m: u64;
    if h < 0 {
        s.append("-");
        m = (-h) as u64;
    } else {
        m = h as u64;
    }
    append_u64(&mut s, m / 100);
    s.append(".");
    push_digit(&mut s, (m / 10) % 10);
    push_digit(&mut s, m % 10);
    s.append(suffix);
    assert(s@ =~= spec_fixed2(h as int) + suffix@);
    s
}

} // verus!
