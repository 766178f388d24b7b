//! A 32-bit number and its four base-256 digits.
//!
//! Both byte orders of this crate, the big-endian ABI word and the
//! little-endian input word, rest on the two facts proved here.

use vstd::arithmetic::div_mod::lemma_fundamental_div_mod_converse;
use vstd::prelude::*;

verus! {

/// The number with the base-256 digits `d0` (lowest) to `d3` (highest).
pub open spec fn spec_from_digits(d0: u8, d1: u8, d2: u8, d3: u8) -> int {
    d0 as int + d1 as int * 0x100 + d2 as int * 0x1_0000 + d3 as int * 0x100_0000
}

/// Digit `0` (lowest) to `3` (highest) of `value` in base 256.
pub open spec fn spec_digit(value: u32, index: int) -> u8 {
    if index == 0 {
        (value % 0x100) as u8
    } else if index == 1 {
        (value / 0x100 % 0x100) as u8
    } else if index == 2 {
        (value / 0x1_0000 % 0x100) as u8
    } else {
        (value / 0x100_0000) as u8
    }
}

/// A number is the sum of its digits, each weighted by its power of 256.
pub proof fn lemma_digits_give_value(value: u32)
    ensures
        spec_from_digits(
            spec_digit(value, 0),
            spec_digit(value, 1),
            spec_digit(value, 2),
            spec_digit(value, 3),
        ) == value,
{
    let v = value as int;
    let q1 = v / 0x100;
    let q2 = v / 0x1_0000;
    let q3 = v / 0x100_0000;
    assert(v == q1 * 0x100 + v % 0x100);
    assert(q1 == (q1 / 0x100) * 0x100 + q1 % 0x100);
    assert(q1 / 0x100 == q2) by {
        lemma_fundamental_div_mod_converse(
            v,
            0x1_0000,
            q1 / 0x100,
            (q1 % 0x100) * 0x100 + v % 0x100,
        );
    }
    assert(q2 == (q2 / 0x100) * 0x100 + q2 % 0x100);
    assert(q2 / 0x100 == q3) by {
        lemma_fundamental_div_mod_converse(
            v,
            0x100_0000,
            q2 / 0x100,
            (q2 % 0x100) * 0x1_0000 + (q1 % 0x100) * 0x100 + v % 0x100,
        );
    }
}

/// The digits of a sum of weighted digits are the digits that were summed,
/// and the sum fits in 32 bits.
pub proof fn lemma_value_gives_digits(d0: u8, d1: u8, d2: u8, d3: u8)
    ensures
        0 <= spec_from_digits(d0, d1, d2, d3) <= u32::MAX,
        spec_digit(spec_from_digits(d0, d1, d2, d3) as u32, 0) == d0,
        spec_digit(spec_from_digits(d0, d1, d2, d3) as u32, 1) == d1,
        spec_digit(spec_from_digits(d0, d1, d2, d3) as u32, 2) == d2,
        spec_digit(spec_from_digits(d0, d1, d2, d3) as u32, 3) == d3,
{
    let v = spec_from_digits(d0, d1, d2, d3);
    let q1 = d1 as int + d2 as int * 0x100 + d3 as int * 0x1_0000;
    let q2 = d2 as int + d3 as int * 0x100;
    lemma_fundamental_div_mod_converse(v, 0x100, q1, d0 as int);
    lemma_fundamental_div_mod_converse(q1, 0x100, q2, d1 as int);
    lemma_fundamental_div_mod_converse(q2, 0x100, d3 as int, d2 as int);
    lemma_fundamental_div_mod_converse(v, 0x1_0000, q2, d0 as int + d1 as int * 0x100);
    lemma_fundamental_div_mod_converse(
        v,
        0x100_0000,
        d3 as int,
        d0 as int + d1 as int * 0x100 + d2 as int * 0x1_0000,
    );
}

} // verus!
