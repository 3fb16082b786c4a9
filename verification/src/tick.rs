//! Wraparound-safe elapsed-time computation from a free-running hardware
//! tick counter of a fixed bit width.
//!
//! A sensor reports time as the low `width` bits of a free-running counter.
//! The elapsed ticks between two readings is their difference modulo
//! `2^width`, which is well defined even when the counter wraps between the
//! readings. The elapsed time is that tick count times a sensor-specific
//! tick period.

use vstd::prelude::*;

verus! {

use vstd::arithmetic::power2::{pow2, lemma_pow2_adds, lemma_pow2_pos, lemma_pow2_unfold};
use vstd::arithmetic::div_mod::{lemma_mod_multiples_vanish, lemma_small_mod};
use vstd::bits::{
    low_bits_mask, lemma_low_bits_mask_unfold, lemma_low_bits_mask_values,
    lemma_u32_low_bits_mask_is_mod, lemma_u32_shl_is_mul,
};

/// Elapsed ticks from `t0` to `t1` on a counter of `width` bits,
/// i.e. `(t1 - t0) mod 2^width`.
pub open spec fn wrapped_delta_spec(t0: u32, t1: u32, width: u32) -> int {
    (t1 - t0) % (pow2(width as nat) as int)
}

/// `low_bits_mask(n) == pow2(n) - 1`.
proof fn lemma_low_bits_mask_is_pow2_minus_one(n: nat)
    ensures
        low_bits_mask(n) == pow2(n) - 1,
    decreases n,
{
    if n == 0 {
        lemma_low_bits_mask_values();
        vstd::arithmetic::power2::lemma2_to64();
    } else {
        lemma_low_bits_mask_is_pow2_minus_one((n - 1) as nat);
        lemma_low_bits_mask_unfold(n);
        lemma_pow2_unfold(n);
    }
}

/// Computes the elapsed ticks from `t0` to `t1` on a counter of `width`
/// bits. The result is `(t1 - t0) mod 2^width`, which always lies in
/// `[0, 2^width)`: a wrap of the counter between the two readings does not
/// produce a negative or oversized delta.
pub fn wrapped_delta(t0: u32, t1: u32, width: u32) -> (delta: u32)
    requires
        1 <= width <= 32,
    ensures
        delta == wrapped_delta_spec(t0, t1, width),
        0 <= delta < pow2(width as nat),
{
    let w = t1.wrapping_sub(t0);
    proof {
        vstd::arithmetic::power2::lemma2_to64();
        vstd::arithmetic::power2::lemma2_to64_rest();
    }
    if width == 32 {
        proof {
            if t1 - t0 < 0 {
                lemma_mod_multiples_vanish(1, t1 - t0, pow2(32) as int);
                lemma_small_mod((t1 - t0 + pow2(32)) as nat, pow2(32));
            } else {
                lemma_small_mod((t1 - t0) as nat, pow2(32));
            }
        }
        w
    } else {
        proof {
            lemma_pow2_pos(width as nat);
            vstd::bits::lemma_u32_pow2_no_overflow(width as nat);
            lemma_u32_shl_is_mul(1u32, width);
        }
        let mask: u32 = (1u32 << width) - 1;
        proof {
            lemma_low_bits_mask_is_pow2_minus_one(width as nat);
            lemma_u32_low_bits_mask_is_mod(w, width as nat);
            // w is congruent to t1 - t0 modulo 2^width, because
            // 2^32 == 2^width * 2^(32 - width).
            lemma_pow2_adds(width as nat, (32 - width) as nat);
            if t1 - t0 < 0 {
                lemma_mod_multiples_vanish(
                    pow2((32 - width) as nat) as int,
                    t1 - t0,
                    pow2(width as nat) as int,
                );
            }
        }
        w & mask
    }
}

/// Elapsed time in nanoseconds for `delta` ticks of `ns_per_tick`
/// nanoseconds each. Always non-negative and free of overflow, since both
/// factors fit in 32 bits.
pub fn dt_nanos(delta: u32, ns_per_tick: u32) -> (dt: u64)
    ensures
        dt == delta * ns_per_tick,
        dt >= 0,
{
    proof {
        vstd::arithmetic::mul::lemma_mul_upper_bound(
            delta as int,
            u32::MAX as int,
            ns_per_tick as int,
            u32::MAX as int,
        );
    }
    (delta as u64) * (ns_per_tick as u64)
}

} // verus!
