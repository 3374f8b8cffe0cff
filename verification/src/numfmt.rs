//! Decimal rendering of integers and fixed-point quantities.
//!
//! Readings that hardware sources report as fractional numbers are
//! carried through the library as scaled integers (tenths or hundredths
//! of a unit), and rendered here under the formatting policy:
//! percentages with one decimal place, fine-grained data sizes with two.
use vstd::prelude::*;

verus! {

/// The decimal digit character for `d` in `0..10`.
pub open spec fn spec_digit(d: int) -> char {
    if d == 0 {
        '0'
    } else if d == 1 {
        '1'
    } else if d == 2 {
        '2'
    } else if d == 3 {
        '3'
    } else if d == 4 {
        '4'
    } else if d == 5 {
        '5'
    } else if d == 6 {
        '6'
    } else if d == 7 {
        '7'
    } else if d == 8 {
        '8'
    } else {
        '9'
    }
}

/// The base-10 rendering of a nonnegative integer, without sign or
/// leading zeros (except for `0` itself).
pub open spec fn spec_u64_str(n: int) -> Seq<char>
    decreases n,
{
    if n < 10 {
        seq![spec_digit(n)]
    } else {
        spec_u64_str(n / 10).push(spec_digit(n % 10))
    }
}

/// A fixed-point value of `t` tenths rendered with one decimal place,
/// e.g. `123` becomes `12.3`.
pub open spec fn spec_tenths_str(t: int) -> Seq<char> {
    spec_u64_str(t / 10).push('.').push(spec_digit(t % 10))
}

/// A fixed-point value of `h` hundredths rendered with two decimal
/// places, e.g. `125` becomes `1.25`.
pub open spec fn spec_hundredths_str(h: int) -> Seq<char> {
    spec_u64_str(h / 100).push('.').push(spec_digit((h / 10) % 10)).push(spec_digit(h % 10))
}

/// `spec_u64_str(n)` left-padded with `'0'` to at least `w` characters.
pub open spec fn spec_zero_padded(n: int, w: int) -> Seq<char>
    decreases w,
{
    if spec_u64_str(n).len() >= w {
        spec_u64_str(n)
    } else {
        seq!['0'] + spec_zero_padded(n, w - 1)
    }
}

pub fn digit_char(d: u64) -> (c: char)
    requires
        d < 10,
    ensures
        c == spec_digit(d as int),
{
    if d == 0 {
        '0'
    } else if d == 1 {
        '1'
    } else if d == 2 {
        '2'
    } else if d == 3 {
        '3'
    } else if d == 4 {
        '4'
    } else if d == 5 {
        '5'
    } else if d == 6 {
        '6'
    } else if d == 7 {
        '7'
    } else if d == 8 {
        '8'
    } else {
        '9'
    }
}

/// Renders `n` in base 10.
pub fn u64_to_string(n: u64) -> (r: String)
    ensures
        r@ == spec_u64_str(n as int),
    decreases n,
{
    if n < 10 {
        let mut r = String::new();
        crate::strutil::push_char(&mut r, digit_char(n));
        proof {
            assert(r@ =~= spec_u64_str(n as int));
        }
        r
    } else {
        let mut r = u64_to_string(n / 10);
        crate::strutil::push_char(&mut r, digit_char(n % 10));
        r
    }
}

/// Renders a quantity of `t` tenths with one decimal place.
pub fn format_tenths(t: u64) -> (r: String)
    ensures
        r@ == spec_tenths_str(t as int),
{
    let mut r = u64_to_string(t / 10);
    crate::strutil::push_char(&mut r, '.');
    crate::strutil::push_char(&mut r, digit_char(t % 10));
    r
}

/// Renders a signed quantity of `t` tenths with one decimal place and a
/// leading minus sign when negative.
pub fn format_tenths_signed(t: i64) -> (r: String)
    requires
        t > i64::MIN,
    ensures
        t >= 0 ==> r@ == spec_tenths_str(t as int),
        t < 0 ==> r@ == seq!['-'] + spec_tenths_str(-t as int),
{
    if t >= 0 {
        format_tenths(t as u64)
    } else {
        let mut r = String::from_str("-");
        let digits = format_tenths((-t) as u64);
        r.append(digits.as_str());
        proof {
            reveal_strlit("-");
            assert(r@ =~= seq!['-'] + spec_tenths_str(-t as int));
        }
        r
    }
}

/// Renders a quantity of `h` hundredths with two decimal places.
pub fn format_hundredths(h: u64) -> (r: String)
    ensures
        r@ == spec_hundredths_str(h as int),
{
    let mut r = u64_to_string(h / 100);
    crate::strutil::push_char(&mut r, '.');
    crate::strutil::push_char(&mut r, digit_char((h / 10) % 10));
    crate::strutil::push_char(&mut r, digit_char(h % 10));
    r
}

/// A usage percentage in tenths of a percent, capped at 100.0%: the
/// share of `total` that `used` occupies, or zero when there is no
/// `total` to speak of.
pub open spec fn spec_percent_tenths(used: int, total: int) -> int {
    if total <= 0 {
        0
    } else if used * 1000 / total > 1000 {
        1000
    } else {
        used * 1000 / total
    }
}

/// Tenths of a gibibyte, rounded to nearest (half away from zero).
pub open spec fn spec_gib_tenths(bytes: int) -> int {
    (bytes * 10 + 536870912) / 1073741824
}

/// Hundredths of a gibibyte, rounded to nearest (half away from zero).
pub open spec fn spec_gib_hundredths(bytes: int) -> int {
    (bytes * 100 + 536870912) / 1073741824
}

/// The share of `total` that `used` occupies, in tenths of a percent.
pub fn percent_tenths(used: u64, total: u64) -> (r: u32)
    ensures
        r == spec_percent_tenths(used as int, total as int),
{
    if total == 0 {
        0
    } else {
        let t: u128 = (used as u128) * 1000 / (total as u128);
        if t > 1000 {
            1000
        } else {
            t as u32
        }
    }
}

/// Converts a byte count to tenths of a gibibyte.
pub fn gib_tenths(bytes: u64) -> (r: u64)
    ensures
        r == spec_gib_tenths(bytes as int),
{
    let q: u128 = ((bytes as u128) * 10 + 536870912) / 1073741824;
    proof {
        vstd::arithmetic::div_mod::lemma_div_is_ordered(
            bytes as int * 10 + 536870912,
            u64::MAX as int * 10 + 536870912,
            1073741824,
        );
    }
    q as u64
}

/// Converts a byte count to hundredths of a gibibyte.
pub fn gib_hundredths(bytes: u64) -> (r: u64)
    ensures
        r == spec_gib_hundredths(bytes as int),
{
    let q: u128 = ((bytes as u128) * 100 + 536870912) / 1073741824;
    proof {
        vstd::arithmetic::div_mod::lemma_div_is_ordered(
            bytes as int * 100 + 536870912,
            u64::MAX as int * 100 + 536870912,
            1073741824,
        );
    }
    q as u64
}

/// Renders `n` left-padded with zeros to at least `w` characters.
pub fn zero_padded(n: u64, w: usize) -> (r: String)
    requires
        w <= 8,
    ensures
        r@ == spec_zero_padded(n as int, w as int),
    decreases w,
{
    let digits = u64_to_string(n);
    if digits.as_str().unicode_len() >= w {
        proof {
            assert(spec_zero_padded(n as int, w as int) == spec_u64_str(n as int));
        }
        digits
    } else {
        let mut r = String::from_str("0");
        let rest = zero_padded(n, w - 1);
        r.append(rest.as_str());
        proof {
            reveal_strlit("0");
            assert(r@ =~= seq!['0'] + spec_zero_padded(n as int, w - 1 as int));
        }
        r
    }
}

} // verus!
