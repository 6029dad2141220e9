//! Human-readable magnitude formatting.
//!
//! `format_bytes` shows a byte count in `B`, `KiB` or `MiB`; `format_number`
//! shows a plain count with no suffix, `K` or `M`. Both switch to the next
//! unit at 1500 of the current one and never go past the last unit, however
//! large the value. A scaled value is printed with as many decimal places
//! as keep it at four digits: under 10 with two (one for plain counts),
//! under 100 with one, and whole above that.
//!
//! The exact digits shown for a scaled value are the ones double-precision
//! scaling displays; `crate::rounding` states where every quotient lands,
//! so the full output is pinned down here as a sequence of characters.

use vstd::prelude::*;
use crate::digits::{
    decimal_digits, digit_char, digit_char_count, is_digit_char, lemma_decimal_digits_all_digits,
    lemma_decimal_digits_len, lemma_digit_char_count_push, push_decimal_digits, push_digit,
};
use crate::rounding::{
    div_round_half_even, div_round_half_even_u64, scaled_tenths, scaled_tenths_u64,
};

verus! {

/// A value shown with two decimal places, from its count of hundredths.
pub open spec fn two_decimal_digits(x: nat) -> Seq<char> {
    decimal_digits(x / 100) + seq!['.', digit_char((x / 10) % 10), digit_char(x % 10)]
}

/// A value shown with one decimal place, from its count of tenths.
pub open spec fn one_decimal_digits(x: nat) -> Seq<char> {
    decimal_digits(x / 10) + seq!['.', digit_char(x % 10)]
}

/// The numeric part of a byte count scaled by the power of two `den`
/// (1024 for KiB, 1048576 for MiB). The quotient is a binary fraction,
/// so each rounding is an exact half-to-even one.
pub open spec fn scaled_bytes_digits(b: nat, den: nat) -> Seq<char>
    recommends
        den > 0,
{
    if b < 10 * den {
        two_decimal_digits(div_round_half_even(100 * b, den))
    } else if b < 100 * den {
        one_decimal_digits(div_round_half_even(10 * b, den))
    } else {
        decimal_digits(div_round_half_even(b, den))
    }
}

/// The characters `format_bytes` returns: plain digits and ` B` below
/// 1500 bytes, then the count scaled by 1024 with ` KiB` below
/// `1500 * 1024` bytes, then the count scaled by 1048576 with ` MiB`.
pub open spec fn spec_format_bytes(bytes: nat) -> Seq<char> {
    if bytes < 1500 {
        decimal_digits(bytes) + seq![' ', 'B']
    } else if bytes < 1536000 {
        scaled_bytes_digits(bytes, 1024) + seq![' ', 'K', 'i', 'B']
    } else {
        scaled_bytes_digits(bytes, 1048576) + seq![' ', 'M', 'i', 'B']
    }
}

/// The numeric part of a count scaled by the power of ten `den` (1000 for
/// `K`, 1000000 for `M`): one decimal place under 10, whole numbers above.
pub open spec fn scaled_number_digits(n: nat, den: nat) -> Seq<char>
    recommends
        den > 0,
{
    if n < 10 * den {
        one_decimal_digits(scaled_tenths(n, den))
    } else {
        decimal_digits(div_round_half_even(n, den))
    }
}

/// The characters `format_number` returns: the plain digits below 1500,
/// then the count scaled by 1000 with suffix `K` below 1,500,000, then the
/// count scaled by 1000000 with suffix `M`. No space before the suffix.
pub open spec fn spec_format_number(number: nat) -> Seq<char> {
    if number < 1500 {
        decimal_digits(number)
    } else if number < 1500000 {
        scaled_number_digits(number, 1000) + seq!['K']
    } else {
        scaled_number_digits(number, 1000000) + seq!['M']
    }
}

/// Appends `x` hundredths as a number with two decimal places.
fn push_two_decimal_digits(out: &mut String, x: u64)
    ensures
        final(out)@ == old(out)@ + two_decimal_digits(x as nat),
{
    push_decimal_digits(out, x / 100);
    out.append(".");
    push_digit(out, (x / 10) % 10);
    push_digit(out, x % 10);
    proof {
        reveal_strlit(".");
        assert("."@ =~= seq!['.']);
        assert(out@ =~= old(out)@ + two_decimal_digits(x as nat));
    }
}

/// Appends `x` tenths as a number with one decimal place.
fn push_one_decimal_digits(out: &mut String, x: u64)
    ensures
        final(out)@ == old(out)@ + one_decimal_digits(x as nat),
{
    push_decimal_digits(out, x / 10);
    out.append(".");
    push_digit(out, x % 10);
    proof {
        reveal_strlit(".");
        assert("."@ =~= seq!['.']);
        assert(out@ =~= old(out)@ + one_decimal_digits(x as nat));
    }
}

/// Appends the numeric part of a scaled byte count.
fn push_scaled_bytes_digits(out: &mut String, b: u64, den: u64)
    requires
        den == 1024 || den == 1048576,
        b <= u32::MAX,
    ensures
        final(out)@ == old(out)@ + scaled_bytes_digits(b as nat, den as nat),
{
    if b < 10 * den {
        let x: u64 = div_round_half_even_u64(100 * b, den);
        push_two_decimal_digits(out, x);
    } else if b < 100 * den {
        let x: u64 = div_round_half_even_u64(10 * b, den);
        push_one_decimal_digits(out, x);
    } else {
        let x: u64 = div_round_half_even_u64(b, den);
        push_decimal_digits(out, x);
    }
}

/// Appends the numeric part of a scaled count.
fn push_scaled_number_digits(out: &mut String, n: u64, den: u64)
    requires
        den == 1000 || den == 1000000,
        n <= u32::MAX,
    ensures
        final(out)@ == old(out)@ + scaled_number_digits(n as nat, den as nat),
{
    if n < 10 * den {
        let x: u64 = scaled_tenths_u64(n, den);
        push_one_decimal_digits(out, x);
    } else {
        let x: u64 = div_round_half_even_u64(n, den);
        push_decimal_digits(out, x);
    }
}

/// Formats a byte size value into a human-readable string.
///
/// Uses the units `B`, `KiB` and `MiB`, switching up at 1500 of the
/// current unit and stopping at `MiB`; the number is kept to four digits
/// by choosing the decimal places. The result is exactly
/// `spec_format_bytes(bytes)`.
pub fn format_bytes(bytes: u32) -> (r: String)
    ensures
        r@ == spec_format_bytes(bytes as nat),
{
    let mut out = String::new();
    let b: u64 = bytes as u64;
    if b < 1500 {
        push_decimal_digits(&mut out, b);
        out.append(" B");
        proof {
            reveal_strlit(" B");
            assert(" B"@ =~= seq![' ', 'B']);
            assert(out@ =~= spec_format_bytes(bytes as nat));
        }
    } else if b < 1536000 {
        push_scaled_bytes_digits(&mut out, b, 1024);
        out.append(" KiB");
        proof {
            reveal_strlit(" KiB");
            assert(" KiB"@ =~= seq![' ', 'K', 'i', 'B']);
            assert(out@ =~= spec_format_bytes(bytes as nat));
        }
    } else {
        push_scaled_bytes_digits(&mut out, b, 1048576);
        out.append(" MiB");
        proof {
            reveal_strlit(" MiB");
            assert(" MiB"@ =~= seq![' ', 'M', 'i', 'B']);
            assert(out@ =~= spec_format_bytes(bytes as nat));
        }
    }
    out
}

/// Formats a count with `K` and `M` suffixes for thousands and millions.
///
/// Uses no suffix, `K` and `M`, switching up at 1500 of the current unit
/// and stopping at `M`; a scaled number carries one decimal place under
/// 10 and none above. The result is exactly `spec_format_number(number)`.
pub fn format_number(number: u32) -> (r: String)
    ensures
        r@ == spec_format_number(number as nat),
{
    let mut out = String::new();
    let n: u64 = number as u64;
    if n < 1500 {
        push_decimal_digits(&mut out, n);
        proof {
            assert(out@ =~= spec_format_number(number as nat));
        }
    } else if n < 1500000 {
        push_scaled_number_digits(&mut out, n, 1000);
        out.append("K");
        proof {
            reveal_strlit("K");
            assert("K"@ =~= seq!['K']);
            assert(out@ =~= spec_format_number(number as nat));
        }
    } else {
        push_scaled_number_digits(&mut out, n, 1000000);
        out.append("M");
        proof {
            reveal_strlit("M");
            assert("M"@ =~= seq!['M']);
            assert(out@ =~= spec_format_number(number as nat));
        }
    }
    out
}

/// Below the scaling threshold a byte count is shown verbatim: its plain
/// digits, one space, and the unit `B`.
pub proof fn lemma_small_byte_count_verbatim(b: nat)
    requires
        b < 1500,
    ensures
        spec_format_bytes(b) == decimal_digits(b) + seq![' ', 'B'],
{
}

/// Below the scaling threshold a count is shown verbatim: its plain
/// digits, with no suffix and no space.
pub proof fn lemma_small_number_verbatim(n: nat)
    requires
        n < 1500,
    ensures
        spec_format_number(n) == decimal_digits(n),
{
}

/// From the scaling threshold up to `1500 * 1024` a formatted byte count
/// ends in ` KiB`; from there on it ends in ` MiB`, however large the
/// count grows.
pub proof fn lemma_byte_count_unit_suffix(b: nat)
    requires
        1500 <= b,
    ensures
        b < 1536000 ==> seq![' ', 'K', 'i', 'B'].is_suffix_of(spec_format_bytes(b)),
        1536000 <= b ==> seq![' ', 'M', 'i', 'B'].is_suffix_of(spec_format_bytes(b)),
{
    let s = spec_format_bytes(b);
    if b < 1536000 {
        assert(seq![' ', 'K', 'i', 'B'] =~= s.subrange(s.len() - 4, s.len() as int));
    } else {
        assert(seq![' ', 'M', 'i', 'B'] =~= s.subrange(s.len() - 4, s.len() as int));
    }
}

/// From the scaling threshold up to 1,500,000 a formatted count ends in
/// `K`; from there on it ends in `M`, however large the count grows.
pub proof fn lemma_number_suffix(n: nat)
    requires
        1500 <= n,
    ensures
        n < 1500000 ==> seq!['K'].is_suffix_of(spec_format_number(n)),
        1500000 <= n ==> seq!['M'].is_suffix_of(spec_format_number(n)),
{
    let s = spec_format_number(n);
    if n < 1500000 {
        assert(seq!['K'] =~= s.subrange(s.len() - 1, s.len() as int));
    } else {
        assert(seq!['M'] =~= s.subrange(s.len() - 1, s.len() as int));
    }
}

/// Appending characters that are not digits leaves the digit count of a
/// sequence alone.
proof fn lemma_digit_char_count_nondigit_suffix(s: Seq<char>, t: Seq<char>)
    requires
        forall|i: int| 0 <= i < t.len() ==> !is_digit_char(t[i]),
    ensures
        digit_char_count(s + t) == digit_char_count(s),
    decreases t.len(),
{
    if t.len() == 0 {
        assert(s + t =~= s);
    } else {
        assert(s + t =~= (s + t.drop_last()).push(t.last()));
        lemma_digit_char_count_nondigit_suffix(s, t.drop_last());
        lemma_digit_char_count_push(s + t.drop_last(), t.last());
    }
}

/// A number of hundredths up to 1000 shows at most four digits.
proof fn lemma_two_decimal_digit_count(x: nat)
    requires
        x <= 1000,
    ensures
        digit_char_count(two_decimal_digits(x)) <= 4,
{
    let d = decimal_digits(x / 100);
    lemma_decimal_digits_len(x / 100);
    lemma_decimal_digits_all_digits(x / 100);
    assert(two_decimal_digits(x) =~= d.push('.').push(digit_char((x / 10) % 10)).push(
        digit_char(x % 10),
    ));
    lemma_digit_char_count_push(d, '.');
    lemma_digit_char_count_push(d.push('.'), digit_char((x / 10) % 10));
    lemma_digit_char_count_push(d.push('.').push(digit_char((x / 10) % 10)), digit_char(x % 10));
}

/// A number of tenths up to 1000 shows at most four digits.
proof fn lemma_one_decimal_digit_count(x: nat)
    requires
        x <= 1000,
    ensures
        digit_char_count(one_decimal_digits(x)) <= 4,
{
    let d = decimal_digits(x / 10);
    lemma_decimal_digits_len(x / 10);
    lemma_decimal_digits_all_digits(x / 10);
    assert(one_decimal_digits(x) =~= d.push('.').push(digit_char(x % 10)));
    lemma_digit_char_count_push(d, '.');
    lemma_digit_char_count_push(d.push('.'), digit_char(x % 10));
}

/// The numeric part of a formatted byte count never has more than four
/// digits; beyond those only the dot, the space and the unit appear.
pub proof fn lemma_byte_count_at_most_four_digits(b: nat)
    requires
        b <= u32::MAX,
    ensures
        digit_char_count(spec_format_bytes(b)) <= 4,
{
    if b < 1500 {
        lemma_decimal_digits_len(b);
        lemma_decimal_digits_all_digits(b);
        lemma_digit_char_count_nondigit_suffix(decimal_digits(b), seq![' ', 'B']);
    } else {
        let den: nat = if b < 1536000 {
            1024
        } else {
            1048576
        };
        let unit = if b < 1536000 {
            seq![' ', 'K', 'i', 'B']
        } else {
            seq![' ', 'M', 'i', 'B']
        };
        if b < 10 * den {
            lemma_two_decimal_digit_count(div_round_half_even(100 * b, den));
        } else if b < 100 * den {
            lemma_one_decimal_digit_count(div_round_half_even(10 * b, den));
        } else {
            let x: nat = div_round_half_even(b, den);
            assert(x <= 4096);
            lemma_decimal_digits_len(x);
            lemma_decimal_digits_all_digits(x);
        }
        lemma_digit_char_count_nondigit_suffix(scaled_bytes_digits(b, den), unit);
    }
}

} // verus!
