use vstd::prelude::*;
use vstd::arithmetic::power2::pow2;
use vstd::bits::{lemma_u64_pow2_no_overflow, lemma_u64_shl_is_mul};

verus! {

/// Type-II, sampled phase, discrete time PLL whose gains are powers of two.
///
/// It uses only wrapping additions, subtractions and shifts. Phase and
/// frequency are wrapping 32-bit quantities (the full `i32` range is one
/// period). The loop locks to any frequency in the first Nyquist zone and is
/// stable for any shift in `1..=30`; the settling time for a frequency or
/// phase step is `1 << shift` updates. The shifts may change between updates.
///
/// Every value of every field is a valid state; the zero state is the usual
/// starting point.
#[derive(Copy, Clone, Debug)]
pub struct ShiftPLL {
    /// Last input phase.
    pub x: i32,
    /// Filtered frequency.
    pub f: i32,
    /// Filtered output phase.
    pub y: i32,
}

/// `v / (1 << shift)` rounded to nearest, ties toward plus infinity: the
/// bias `1 << (shift - 1)` is added (wrapping) before the flooring
/// arithmetic shift.
pub open spec fn round_shift(v: i32, shift: u32) -> i32 {
    v.wrapping_add(1i32 << ((shift - 1) as u32)) >> shift
}

proof fn lemma_shift_bits(v: i32, shift: u32)
    by (bit_vector)
    requires
        1 <= shift <= 30,
    ensures
        1i32 << ((shift - 1) as u32) == (1u64 << ((shift - 1) as u32)) as i32,
        ((v >> shift) as i64) * ((1u64 << shift) as i64) <= v as i64,
        (v as i64) < ((v >> shift) as i64) * ((1u64 << shift) as i64) + ((1u64 << shift) as i64),
        (1u64 << shift) == 2 * (1u64 << ((shift - 1) as u32)),
        (1u64 << shift) <= 0x4000_0000,
{
}

/// Where adding the bias does not wrap, `round_shift` is `v / 2^shift`
/// rounded to the nearest integer, ties toward plus infinity.
pub proof fn lemma_round_shift_nearest(v: i32, shift: u32)
    requires
        valid_shift(shift),
        v + pow2((shift - 1) as nat) <= i32::MAX,
    ensures
        ({
            let q = round_shift(v, shift) as int;
            let d = pow2(shift as nat) as int;
            q * d - d / 2 <= v < q * d + d / 2
        }),
{
    let t = (shift - 1) as u32;
    lemma_u64_pow2_no_overflow(t as nat);
    lemma_u64_pow2_no_overflow(shift as nat);
    lemma_u64_shl_is_mul(1u64, t as u64);
    lemma_u64_shl_is_mul(1u64, shift as u64);
    let w = (v + pow2(t as nat)) as i32;
    lemma_shift_bits(w, shift);
    lemma_shift_bits(v, shift);
    assert(1u64 << (t as u64) == 1u64 << t);
    assert(1u64 << (shift as u64) == 1u64 << shift);
    assert(v.wrapping_add(1i32 << t) == w);
}

/// A shift in the range that the loop is stable for.
pub open spec fn valid_shift(shift: u32) -> bool {
    1 <= shift <= 30
}

/// Computes `round_shift` for a valid shift.
fn shift_round(v: i32, shift: u32) -> (r: i32)
    requires
        valid_shift(shift),
    ensures
        r == round_shift(v, shift),
{
    v.wrapping_add(1i32 << (shift - 1)) >> shift
}

impl ShiftPLL {
    /// The zero state.
    pub open spec fn zero() -> ShiftPLL {
        ShiftPLL { x: 0, f: 0, y: 0 }
    }

    /// The frequency that advances the phase in this update, and the state
    /// with the last input phase and filtered frequency already updated.
    ///
    /// With a sample: the frequency error `df` is the wrapped phase increment
    /// less the filtered frequency, scaled down by `1 << shift_frequency`. It
    /// is added to the filtered frequency; the frequency used is the midpoint
    /// `f - df / 2`. Without a sample the last input phase is extrapolated by
    /// the filtered frequency, which is kept and used.
    pub open spec fn frequency_step(self, x: Option<i32>, shift_frequency: u32) -> (ShiftPLL, i32) {
        match x {
            Some(x) => {
                let df = round_shift(x.wrapping_sub(self.x).wrapping_sub(self.f), shift_frequency);
                let f = self.f.wrapping_add(df);
                (ShiftPLL { x, f, y: self.y }, f.wrapping_sub(df >> 1u32))
            },
            None => (ShiftPLL { x: self.x.wrapping_add(self.f), f: self.f, y: self.y }, self.f),
        }
    }

    /// The state after one update, and the returned phase and frequency.
    ///
    /// The filtered phase advances by the frequency of `frequency_step`;
    /// then the phase error `dy`, the last input phase less the filtered
    /// phase, scaled down by `1 << shift_phase`, is added to it. The phase
    /// returned is the midpoint `y - dy / 2`, the frequency returned that
    /// frequency plus `dy`.
    pub open spec fn step(self, x: Option<i32>, shift_frequency: u32, shift_phase: u32) -> (
        ShiftPLL,
        (i32, i32),
    ) {
        let (s, f) = self.frequency_step(x, shift_frequency);
        let y = s.y.wrapping_add(f);
        let dy = round_shift(s.x.wrapping_sub(y), shift_phase);
        let y = y.wrapping_add(dy);
        (ShiftPLL { x: s.x, f: s.f, y }, (y.wrapping_sub(dy >> 1u32), f.wrapping_add(dy)))
    }

    /// Update the PLL with a new phase sample, or with `None` where a sample
    /// was missed, and return the phase and frequency estimates. Call once
    /// per sampling period.
    ///
    /// A missed sample extrapolates open loop: the last input phase advances
    /// by the filtered frequency, which is kept, and the phase loop follows
    /// that extrapolated input.
    pub fn update(&mut self, x: Option<i32>, shift_frequency: u32, shift_phase: u32) -> (r: (
        i32,
        i32,
    ))
        requires
            valid_shift(shift_frequency),
            valid_shift(shift_phase),
        ensures
            (*final(self), r) == old(self).step(x, shift_frequency, shift_phase),
            x is None ==> final(self).f == old(self).f && final(self).x == old(self).x.wrapping_add(
                old(self).f,
            ),
    {
        let f = match x {
            Some(x) => {
                let dx = x.wrapping_sub(self.x);
                self.x = x;
                let df = shift_round(dx.wrapping_sub(self.f), shift_frequency);
                self.f = self.f.wrapping_add(df);
                self.f.wrapping_sub(df >> 1u32)
            },
            None => {
                self.x = self.x.wrapping_add(self.f);
                self.f
            },
        };
        self.y = self.y.wrapping_add(f);
        let dy = shift_round(self.x.wrapping_sub(self.y), shift_phase);
        self.y = self.y.wrapping_add(dy);
        (self.y.wrapping_sub(dy >> 1u32), f.wrapping_add(dy))
    }
}

/// The loop is locked onto an input that advances by `f0` per sample: the
/// filtered frequency is exactly `f0` and the filtered phase exactly the
/// last input.
pub open spec fn locked(p: ShiftPLL, f0: i32) -> bool {
    p.f == f0 && p.y == p.x
}

proof fn lemma_round_shift_zero(shift: u32)
    by (bit_vector)
    requires
        1 <= shift <= 30,
    ensures
        (1i32 << ((shift - 1) as u32)) >> shift == 0,
        1i32 << ((shift - 1) as u32) > 0,
        0i32 >> 1u32 == 0,
{
}

/// A locked loop stays locked, with no error, while the input keeps
/// advancing by the same frequency (the loop has two integrators): it
/// returns the input phase and `f0` exactly, for any valid shifts.
pub proof fn lemma_locked_is_steady(p: ShiftPLL, f0: i32, shift_frequency: u32, shift_phase: u32)
    requires
        locked(p, f0),
        valid_shift(shift_frequency),
        valid_shift(shift_phase),
    ensures
        ({
            let x = p.x.wrapping_add(f0);
            let (q, r) = p.step(Some(x), shift_frequency, shift_phase);
            locked(q, f0) && q.x == x && r == (x, f0)
        }),
{
    lemma_round_shift_zero(shift_frequency);
    lemma_round_shift_zero(shift_phase);
    let x = p.x.wrapping_add(f0);
    assert(x.wrapping_sub(p.x).wrapping_sub(p.f) == 0);
    assert(round_shift(0, shift_frequency) == 0);
    assert(round_shift(0, shift_phase) == 0);
}

impl Default for ShiftPLL {
    /// The zero state.
    fn default() -> (r: ShiftPLL)
        ensures
            r == ShiftPLL::zero(),
    {
        ShiftPLL { x: 0, f: 0, y: 0 }
    }
}

} // verus!
