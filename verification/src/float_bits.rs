//! Single precision floats held as their bit patterns, and their conversion to integers
use vstd::arithmetic::power2::{lemma2_to64, lemma_pow2_strictly_increases, pow2};
use vstd::prelude::*;

verus! {

/// Biased exponent of the float
pub open spec fn spec_f32_exp(bits: u32) -> int {
    (bits as int / 0x800000) % 256
}

/// Mantissa (fraction bits) of the float
pub open spec fn spec_f32_man(bits: u32) -> int {
    bits as int % 0x800000
}

/// The sign bit of the float is set
pub open spec fn spec_f32_neg(bits: u32) -> bool {
    bits as int >= 0x8000_0000
}

/// Integer part of the absolute value of a finite float
pub open spec fn spec_f32_trunc_abs(bits: u32) -> int {
    let e = spec_f32_exp(bits);
    let m = spec_f32_man(bits);
    if e == 0 {
        0
    } else if e >= 150 {
        (0x800000 + m) * pow2((e - 150) as nat)
    } else {
        (0x800000 + m) / pow2((150 - e) as nat) as int
    }
}

/// The float converted to `i32` as `as` does: the integer part (rounded toward zero),
/// saturated to the range of `i32`; 0 for NaN
pub open spec fn spec_f32_to_i32(bits: u32) -> i32 {
    let e = spec_f32_exp(bits);
    let m = spec_f32_man(bits);
    let t = spec_f32_trunc_abs(bits);
    if e == 255 && m != 0 {
        0
    } else if e == 255 {
        if spec_f32_neg(bits) {
            i32::MIN
        } else {
            i32::MAX
        }
    } else if spec_f32_neg(bits) {
        if t >= 0x8000_0000 {
            i32::MIN
        } else {
            (-t) as i32
        }
    } else {
        if t > i32::MAX {
            i32::MAX
        } else {
            t as i32
        }
    }
}

/// Convert a float given by its bit pattern to `i32` as `as` does
pub fn f32_bits_to_i32(bits: u32) -> (r: i32)
    ensures
        r == spec_f32_to_i32(bits),
{
    let e = (bits >> 23) & 0xff;
    let m = bits & 0x7fffff;
    let neg = (bits >> 31) == 1;
    assert(e == spec_f32_exp(bits) && m == spec_f32_man(bits)) by {
        assert((bits >> 23) & 0xff == (bits / 0x800000) % 256) by (bit_vector);
        assert(bits & 0x7fffff == bits % 0x800000) by (bit_vector);
    }
    assert(neg == spec_f32_neg(bits)) by {
        assert(((bits >> 31) == 1) == (bits >= 0x8000_0000)) by (bit_vector);
    }
    if e == 255 {
        if m != 0 {
            return 0;
        }
        return if neg {
            i32::MIN
        } else {
            i32::MAX
        };
    }
    let full: u64 = 0x800000u64 + m as u64;
    if e >= 158 {
        proof {
            lemma2_to64();
            let k = (e - 150) as nat;
            if k > 8 {
                lemma_pow2_strictly_increases(8, k);
            }
            assert(pow2(k) >= 256);
            assert(full * pow2(k) >= 0x800000 * 256) by (nonlinear_arith)
                requires
                    full >= 0x800000,
                    pow2(k) >= 256,
            ;
        }
        return if neg {
            i32::MIN
        } else {
            i32::MAX
        };
    }
    let t: u64 = if e == 0 {
        0
    } else if e < 127 {
        proof {
            let k = (150 - e) as nat;
            lemma2_to64();
            if k > 24 {
                lemma_pow2_strictly_increases(24, k);
            }
            vstd::arithmetic::div_mod::lemma_basic_div(full as int, pow2(k) as int);
        }
        0
    } else if e >= 150 {
        let k: u64 = (e - 150) as u64;
        proof {
            lemma2_to64();
            if k < 7 {
                lemma_pow2_strictly_increases(k as nat, 7);
            }
            assert(pow2(k as nat) <= 128);
            assert(full * pow2(k as nat) < 0x1000000 * 128) by (nonlinear_arith)
                requires
                    full < 0x1000000,
                    pow2(k as nat) <= 128,
            ;
            vstd::bits::lemma_u64_shl_is_mul(full, k);
        }
        full << k
    } else {
        let k: u64 = (150 - e) as u64;
        proof {
            vstd::bits::lemma_u64_shr_is_div(full, k);
        }
        full >> k
    };
    proof {
        if 127 <= e < 150 {
            let k = (150 - e) as nat;
            vstd::arithmetic::power2::lemma_pow2_pos(k);
            assert(full as int / pow2(k) as int <= full) by {
                vstd::arithmetic::div_mod::lemma_div_is_ordered_by_denominator(
                    full as int,
                    1,
                    pow2(k) as int,
                );
            }
        }
    }
    assert(t == spec_f32_trunc_abs(bits));
    assert(t < 0x8000_0000);
    if neg {
        -(t as i64) as i32
    } else {
        t as i32
    }
}

} // verus!
