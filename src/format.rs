use vstd::prelude::*;
use crate::candle::SUBUNITS;
use crate::digits::{decimal, grouped, padded, push_decimal, push_grouped, push_padded};

verus! {

/// `n / d` rounded to the nearest integer, ties to the even neighbour.
pub open spec fn round_half_even(n: nat, d: nat) -> nat
    recommends
        d > 0,
{
    let q = n / d;
    let r = n % d;
    if 2 * r > d || (2 * r == d && q % 2 == 1) {
        q + 1
    } else {
        q
    }
}

/// `n / d` rounded to the nearest integer, ties away from zero.
pub open spec fn round_half_up(n: nat, d: nat) -> nat
    recommends
        d > 0,
{
    if 2 * (n % d) >= d {
        n / d + 1
    } else {
        n / d
    }
}

/// The magnitude of a fixed-point amount.
pub open spec fn magnitude(v: int) -> nat {
    if v < 0 { (-v) as nat } else { v as nat }
}

/// `-` for a negative amount, nothing otherwise.
pub open spec fn sign_text(negative: bool) -> Seq<char> {
    if negative { seq!['-'] } else { Seq::empty() }
}

/// A count of hundredths as a numeral with two decimals.
pub open spec fn two_decimals(hundredths: nat) -> Seq<char> {
    decimal(hundredths / 100).push('.') + padded(hundredths % 100, 2)
}

/// A USD-style price text for an amount in sub-units: a magnitude suffix
/// from a thousand up, two grouped decimals from a tenth up, four decimals
/// below a tenth.
pub open spec fn usd_text(v: int) -> Seq<char> {
    let a = magnitude(v);
    let s = sign_text(v < 0);
    if v == 0 {
        seq!['$', '0', '.', '0', '0']
    } else if a >= 10_000_000_000_000 {
        seq!['$'] + s + two_decimals(round_half_even(a, 100_000_000_000)).push('B')
    } else if a >= 10_000_000_000 {
        seq!['$'] + s + two_decimals(round_half_even(a, 100_000_000)).push('M')
    } else if a >= 10_000_000 {
        seq!['$'] + s + two_decimals(round_half_even(a, 100_000)).push('K')
    } else if a >= 1000 {
        let h = round_half_even(a, 100);
        seq!['$'] + s + grouped(h / 100, ',').push('.') + padded(h % 100, 2)
    } else {
        seq!['$'] + s + seq!['0', '.'] + padded(a, 4)
    }
}

/// An IDR-style price text for an amount in sub-units: rounded to a whole
/// number, ties away from zero, grouped by threes with `.`.
pub open spec fn idr_text(v: int) -> Seq<char> {
    let w = round_half_up(magnitude(v), SUBUNITS as nat);
    sign_text(v < 0 && w > 0) + grouped(w, '.')
}

/// The magnitude of `v` as an unsigned integer.
pub(crate) fn magnitude_of(v: i64) -> (r: u64)
    ensures
        r == magnitude(v as int),
{
    if v < 0 {
        (-(v as i128)) as u64
    } else {
        v as u64
    }
}

pub(crate) fn rounded_half_even(n: u64, d: u64) -> (r: u64)
    requires
        d > 1,
    ensures
        r == round_half_even(n as nat, d as nat),
{
    let q = n / d;
    let rem = n % d;
    assert(q < 0xffff_ffff_ffff_ffff) by (nonlinear_arith)
        requires
            d > 1,
            q == n / d,
            n <= 0xffff_ffff_ffff_ffff,
    ;
    if (rem as u128) * 2 > d as u128 || ((rem as u128) * 2 == d as u128 && q % 2 == 1) {
        q + 1
    } else {
        q
    }
}

fn push_sign(s: &mut String, negative: bool)
    ensures
        final(s)@ == old(s)@ + sign_text(negative),
{
    if negative {
        proof { reveal_strlit("-"); }
        s.append("-");
    } else {
        assert(old(s)@ + sign_text(negative) =~= old(s)@);
    }
}

fn push_two_decimals(s: &mut String, hundredths: u64)
    ensures
        final(s)@ == old(s)@ + two_decimals(hundredths as nat),
{
    proof { reveal_strlit("."); }
    push_decimal(s, hundredths / 100);
    s.append(".");
    push_padded(s, hundredths % 100, 2);
    assert(final(s)@ =~= old(s)@ + two_decimals(hundredths as nat));
}

/// Formats a price given in sub-units in the USD style.
pub fn format_usd(price: i64) -> (r: String)
    ensures
        r@ == usd_text(price as int),
{
    proof {
        reveal_strlit("$0.00");
        reveal_strlit("$");
        reveal_strlit("B");
        reveal_strlit("M");
        reveal_strlit("K");
        reveal_strlit(".");
        reveal_strlit(",");
        reveal_strlit("0.");
    }
    if price == 0 {
        return String::from_str("$0.00");
    }
    let a = magnitude_of(price);
    let mut s = String::from_str("$");
    push_sign(&mut s, price < 0);
    let ghost head = s@;
    if a >= 10_000_000_000_000 {
        push_two_decimals(&mut s, rounded_half_even(a, 100_000_000_000));
        s.append("B");
    } else if a >= 10_000_000_000 {
        push_two_decimals(&mut s, rounded_half_even(a, 100_000_000));
        s.append("M");
    } else if a >= 10_000_000 {
        push_two_decimals(&mut s, rounded_half_even(a, 100_000));
        s.append("K");
    } else if a >= 1000 {
        let h = rounded_half_even(a, 100);
        push_grouped(&mut s, h / 100, ",");
        s.append(".");
        push_padded(&mut s, h % 100, 2);
    } else {
        s.append("0.");
        push_padded(&mut s, a, 4);
    }
    assert(s@ =~= usd_text(price as int));
    s
}

/// Formats a price given in sub-units in the IDR style.
pub fn format_idr(price: i64) -> (r: String)
    ensures
        r@ == idr_text(price as int),
{
    proof { reveal_strlit("."); }
    let a = magnitude_of(price);
    let w = if a % 10_000 >= 5_000 { a / 10_000 + 1 } else { a / 10_000 };
    let mut s = String::new();
    push_sign(&mut s, price < 0 && w > 0);
    push_grouped(&mut s, w, ".");
    assert(s@ =~= idr_text(price as int));
    s
}

/// The magnitude of `v` in hundredths of a unit, as two decimals.
pub(crate) fn hundredths_text(v: i64) -> (r: String)
    ensures
        r@ == two_decimals(round_half_even(magnitude(v as int), 100)),
{
    let mut s = String::new();
    push_two_decimals(&mut s, rounded_half_even(magnitude_of(v), 100));
    s
}

} // verus!
