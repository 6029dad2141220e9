//! Rounding of scaled display values.
//!
//! A display value is a quotient `num / den` shown with a fixed number of
//! decimal places. The digits chosen are the ones double-precision
//! arithmetic prints for that quotient, and this module states in integers
//! exactly where such a value lands:
//!
//! * When `den` is a power of two the quotient is a binary fraction, held
//!   exactly, and printing rounds it to the nearest decimal with ties to
//!   even — `div_round_half_even`.
//! * When `den` is a power of ten the quotient is first rounded to the
//!   nearest binary fraction, so a decimal tie is exact only when it
//!   reduces to quarters, as `1.75` does; one such as `2.55` is held
//!   slightly off instead, and the printed tenth follows the side it is
//!   held on — `scaled_tenths`, with the side given by
//!   `half_tenth_rounds_up`.

use vstd::prelude::*;

verus! {

/// `num / den` rounded to the nearest integer, with an exact half rounded
/// to the even neighbour.
pub open spec fn div_round_half_even(num: nat, den: nat) -> nat
    recommends
        den > 0,
{
    let q = num / den;
    let r = num % den;
    if 2 * r < den {
        q
    } else if 2 * r > den {
        q + 1
    } else if q % 2 == 0 {
        q
    } else {
        q + 1
    }
}

/// Which way a decimal-scale quotient that lands exactly on the half
/// `(q + 1/2) / 10` is shown, that half being `(2q + 1) / 20`.
///
/// When `2q + 1` is divisible by 5 the half reduces to an odd number of
/// quarters, a binary fraction held exactly, so the tie is genuine and the
/// even number of tenths is shown. Otherwise the half is no binary
/// fraction, and the printed tenth follows the nearest one with 53
/// significant bits: writing `e` for the binary exponent of the value,
/// that neighbour lies above the half — so the shown tenth rounds up —
/// exactly when `(2q + 1) * 2^(50 - e)` leaves remainder 3 or 4 modulo 5.
/// Only `1 <= (2q + 1) / 20 < 16` arises here, so `e` is settled by
/// comparing `q` against 20, 40 and 80.
pub open spec fn half_tenth_rounds_up(q: nat) -> bool
    recommends
        10 <= q < 160,
{
    if q % 5 == 2 {
        q % 2 == 1
    } else {
        let o = 2 * q + 1;
        let pow2_mod5 = if q < 20 {
            4nat  // e = 0: 2^50 % 5
        } else if q < 40 {
            2nat  // e = 1: 2^49 % 5
        } else if q < 80 {
            1nat  // e = 2: 2^48 % 5
        } else {
            3nat  // e = 3: 2^47 % 5
        };
        ((o % 5) * pow2_mod5) % 5 >= 3
    }
}

/// `10 * num / den` rounded to the nearest whole number of tenths: the
/// value shown with one decimal place after scaling `num` down by the
/// decimal divisor `den`. An exact half goes the way the double-precision
/// quotient lies, per `half_tenth_rounds_up`.
pub open spec fn scaled_tenths(num: nat, den: nat) -> nat
    recommends
        den > 0,
{
    let q = (10 * num) / den;
    let r = (10 * num) % den;
    if 2 * r < den {
        q
    } else if 2 * r > den {
        q + 1
    } else if half_tenth_rounds_up(q) {
        q + 1
    } else {
        q
    }
}

/// Computes `div_round_half_even(num, den)`.
pub fn div_round_half_even_u64(num: u64, den: u64) -> (r: u64)
    requires
        0 < den <= u64::MAX / 2,
        num < u64::MAX,
    ensures
        r == div_round_half_even(num as nat, den as nat),
{
    let q: u64 = num / den;
    let rem: u64 = num % den;
    if 2 * rem < den {
        q
    } else if 2 * rem > den {
        q + 1
    } else if q % 2 == 0 {
        q
    } else {
        q + 1
    }
}

/// Computes `half_tenth_rounds_up(q)`.
fn half_tenth_rounds_up_u64(q: u64) -> (r: bool)
    requires
        q < u64::MAX / 2,
    ensures
        r == half_tenth_rounds_up(q as nat),
{
    if q % 5 == 2 {
        q % 2 == 1
    } else {
        let o: u64 = 2 * q + 1;
        let pow2_mod5: u64 = if q < 20 {
            4
        } else if q < 40 {
            2
        } else if q < 80 {
            1
        } else {
            3
        };
        ((o % 5) * pow2_mod5) % 5 >= 3
    }
}

/// Computes `scaled_tenths(num, den)`.
pub fn scaled_tenths_u64(num: u64, den: u64) -> (r: u64)
    requires
        0 < den <= u64::MAX / 2,
        num <= u64::MAX / 20,
    ensures
        r == scaled_tenths(num as nat, den as nat),
{
    let t: u64 = 10 * num;
    let q: u64 = t / den;
    let rem: u64 = t % den;
    if 2 * rem < den {
        q
    } else if 2 * rem > den {
        q + 1
    } else if half_tenth_rounds_up_u64(q) {
        q + 1
    } else {
        q
    }
}

} // verus!
