//! Percentages read from an unreliable source, carried as the bit pattern of
//! an IEEE 754 binary64 value, rounded and clamped to `0..=100`.
use vstd::prelude::*;
use vstd::arithmetic::power2::{
    lemma2_to64_rest,
    pow2, lemma_pow2_pos, lemma_pow2_adds, lemma_pow2_strictly_increases, lemma2_to64,
};
use vstd::arithmetic::div_mod::{lemma_basic_div, lemma_fundamental_div_mod_converse_div};
use vstd::bits::{lemma_u64_shr_is_div, lemma_u64_shl_is_mul, lemma_u64_pow2_no_overflow};

verus! {

/// The biased exponent field of a binary64 bit pattern.
pub open spec fn exponent_field(bits: u64) -> u64 {
    (bits >> 52u64) & 0x7ffu64
}

/// The stored fraction field of a binary64 bit pattern.
pub open spec fn fraction_field(bits: u64) -> u64 {
    bits & 0xf_ffff_ffff_ffffu64
}

pub open spec fn sign_set(bits: u64) -> bool {
    bits >> 63u64 == 1u64
}

/// Infinities and NaNs have an all-ones exponent.
pub open spec fn is_finite(bits: u64) -> bool {
    exponent_field(bits) != 0x7ffu64
}

/// The integer significand, with the implicit leading bit of normal numbers.
pub open spec fn significand(bits: u64) -> nat {
    if exponent_field(bits) == 0 {
        fraction_field(bits) as nat
    } else {
        fraction_field(bits) as nat + pow2(52)
    }
}

/// The power of two that scales the significand.
pub open spec fn scale(bits: u64) -> int {
    if exponent_field(bits) == 0 {
        -1074
    } else {
        exponent_field(bits) - 1075
    }
}

/// Numerator of the magnitude of a finite value, written as a fraction.
pub open spec fn magnitude_num(bits: u64) -> nat {
    if scale(bits) >= 0 {
        significand(bits) * pow2(scale(bits) as nat)
    } else {
        significand(bits)
    }
}

/// Denominator of the magnitude of a finite value, written as a fraction.
pub open spec fn magnitude_den(bits: u64) -> nat {
    if scale(bits) >= 0 {
        1
    } else {
        pow2((-scale(bits)) as nat)
    }
}

/// The integer nearest to `num / den`, halves rounding up.
pub open spec fn round_half_up(num: nat, den: nat) -> nat
    recommends
        den > 0,
{
    ((2 * num + den) / (2 * den)) as nat
}

/// The value rounded to the nearest integer (ties away from zero) and clamped
/// to `0..=100`; a non-finite value gives 0.
pub open spec fn clamp_round_percent(bits: u64) -> nat {
    if !is_finite(bits) || sign_set(bits) {
        0
    } else {
        let r = round_half_up(magnitude_num(bits), magnitude_den(bits));
        if r > 100 {
            100
        } else {
            r
        }
    }
}

/// What is left of a window once the used share is taken out.
pub open spec fn remaining_percent(bits: u64) -> nat {
    (100 - clamp_round_percent(bits)) as nat
}

proof fn lemma_fields(bits: u64)
    ensures
        exponent_field(bits) <= 0x7ff,
        fraction_field(bits) < 0x10_0000_0000_0000u64,
{
    assert((bits >> 52u64) & 0x7ffu64 <= 0x7ffu64) by (bit_vector);
    assert(bits & 0xf_ffff_ffff_ffffu64 < 0x10_0000_0000_0000u64) by (bit_vector);
}

/// Rounds a used percentage to the nearest integer and clamps it to
/// `0..=100`; NaN and the infinities give 0.
pub fn fmt_pct(value: u64) -> (r: u8)
    ensures
        r as nat == clamp_round_percent(value),
        r <= 100,
{
    let exp: u64 = (value >> 52u64) & 0x7ffu64;
    let negative: bool = (value >> 63u64) == 1u64;
    if exp == 0x7ff || negative {
        return 0;
    }
    let frac: u64 = value & 0xf_ffff_ffff_ffffu64;
    proof {
        lemma_fields(value);
        lemma2_to64();
        lemma2_to64_rest();
    }
    let m: u64 = if exp == 0 { frac } else { frac + 0x10_0000_0000_0000 };
    assert(m as nat == significand(value));
    if exp >= 1075 {
        proof {
            let s = scale(value) as nat;
            lemma_pow2_pos(s);
            assert(m as nat * pow2(s) >= m as nat) by (nonlinear_arith)
                requires pow2(s) >= 1;
            let num = magnitude_num(value);
            assert(num >= 0x10_0000_0000_0000);
            lemma_fundamental_div_mod_converse_div((2 * num + 1) as int, 2, num as int, 1);
        }
        return 100;
    }
    let k: u64 = if exp == 0 { 1074 } else { 1075 - exp };
    assert(magnitude_den(value) == pow2(k as nat));
    assert(magnitude_num(value) == m as nat);
    if k > 54 {
        proof {
            lemma_pow2_strictly_increases(54, k as nat);
            lemma_pow2_adds(1, k as nat);
            lemma_basic_div((2 * m + pow2(k as nat)) as int, (2 * pow2(k as nat)) as int);
        }
        return 0;
    }
    proof {
        lemma_u64_pow2_no_overflow(k as nat);
        lemma_u64_shl_is_mul(1, k);
        if k < 54 {
            lemma_pow2_strictly_increases(k as nat, 54);
        }
    }
    let unit: u64 = 1u64 << k;
    let twice: u64 = 2 * m + unit;
    let q: u64 = twice >> (k + 1);
    proof {
        lemma_u64_shr_is_div(twice, (k + 1) as u64);
        lemma_pow2_adds(1, k as nat);
        assert(pow2(k as nat + 1) == 2 * pow2(k as nat)) by (nonlinear_arith)
            requires pow2(k as nat + 1) == pow2(1) * pow2(k as nat), pow2(1) == 2;
    }
    if q > 100 {
        100
    } else {
        q as u8
    }
}

/// The share of a quota window that is left: `100 - fmt_pct(used)`.
pub fn remaining_pct(used_percent: u64) -> (r: u8)
    ensures
        r as nat == remaining_percent(used_percent),
        r as nat == 100 - clamp_round_percent(used_percent),
{
    100 - fmt_pct(used_percent)
}

} // verus!
