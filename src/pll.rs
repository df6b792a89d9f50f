use vstd::prelude::*;

verus! {

/// Type-II, sampled phase, discrete time PLL with an arbitrary integer gain
/// and first order noise shaping.
///
/// Phase and frequency are wrapping 32-bit quantities (the full `i32` range
/// is one period). The filtered frequency `f` and filtered phase `y` are
/// 64-bit fixed-point accumulators: their upper 32 bits are the integer
/// estimate, their lower 32 bits the retained fraction.
///
/// Every value of every field is a valid state; the zero state is the usual
/// starting point.
#[derive(Copy, Clone, Debug)]
pub struct PLL {
    /// Last input phase.
    pub x: i32,
    /// Last output phase.
    pub y0: i32,
    /// Last output frequency.
    pub f0: i32,
    /// Filtered frequency.
    pub f: i64,
    /// Filtered output phase.
    pub y: i64,
}

/// The integer part (upper 32 bits, rounded toward minus infinity) of a
/// 64-bit fixed-point accumulator.
pub open spec fn high(v: i64) -> i32 {
    (v >> 32u64) as i32
}

/// The integer part of a 64-bit fixed-point accumulator.
fn integer_part(v: i64) -> (r: i32)
    ensures
        r == high(v),
{
    assert(i32::MIN <= v >> 32u64 <= i32::MAX) by (bit_vector);
    (v >> 32u32) as i32
}

/// A 32-bit error scaled by a 32-bit gain; the product always fits 64 bits.
fn scale(e: i32, k: i32) -> (r: i64)
    ensures
        r == e as i64 * k as i64,
{
    assert(i64::MIN <= e as i64 * k as i64 <= i64::MAX) by (nonlinear_arith);
    e as i64 * k as i64
}

impl PLL {
    /// The zero state.
    pub open spec fn zero() -> PLL {
        PLL { x: 0, y0: 0, f0: 0, f: 0, y: 0 }
    }

    /// The state after one update with the sample `x` (or none) and gain `k`.
    ///
    /// With a sample: the frequency correction `df = (dx - high(f)) * k`
    /// (with `dx` the wrapped phase increment) is added to `f` once before
    /// `y` advances by `f` and once after. The phase correction
    /// `dy = (x - high(y)) * k` is likewise added twice to `y`; the visible
    /// phase is `high(y)` between the two additions and the visible
    /// frequency is its increment over the last visible phase.
    ///
    /// Without a sample: `y` advances by `f`, and the last input phase and
    /// the visible phase advance by the last visible frequency.
    pub open spec fn next(self, x: Option<i32>, k: i32) -> PLL {
        match x {
            Some(x) => {
                let dx = x.wrapping_sub(self.x);
                let df = (dx.wrapping_sub(high(self.f)) as i64 * k as i64) as i64;
                let f1 = self.f.wrapping_add(df);
                let y1 = self.y.wrapping_add(f1);
                let f2 = f1.wrapping_add(df);
                let dy = (x.wrapping_sub(high(y1)) as i64 * k as i64) as i64;
                let y2 = y1.wrapping_add(dy);
                let out = high(y2);
                PLL {
                    x,
                    y0: out,
                    f0: out.wrapping_sub(self.y0),
                    f: f2,
                    y: y2.wrapping_add(dy),
                }
            },
            None => PLL {
                x: self.x.wrapping_add(self.f0),
                y0: self.y0.wrapping_add(self.f0),
                f0: self.f0,
                f: self.f,
                y: self.y.wrapping_add(self.f),
            },
        }
    }

    /// Update the PLL with a new phase sample, or with `None` where a sample
    /// was missed. Call once per sampling period. `k` is the feedback gain.
    ///
    /// A missed sample extrapolates open loop: the visible phase advances by
    /// the visible frequency, which is kept, and the filtered phase advances
    /// by the filtered frequency, which is kept too.
    pub fn update(&mut self, x: Option<i32>, k: i32)
        ensures
            *final(self) == old(self).next(x, k),
            x is None ==> final(self).y0 == old(self).y0.wrapping_add(old(self).f0)
                && final(self).f0 == old(self).f0 && final(self).f == old(self).f
                && final(self).y == old(self).y.wrapping_add(old(self).f),
    {
        match x {
            Some(x) => {
                let dx = x.wrapping_sub(self.x);
                self.x = x;
                let df = scale(dx.wrapping_sub(integer_part(self.f)), k);
                self.f = self.f.wrapping_add(df);
                self.y = self.y.wrapping_add(self.f);
                self.f = self.f.wrapping_add(df);
                let dy = scale(x.wrapping_sub(integer_part(self.y)), k);
                self.y = self.y.wrapping_add(dy);
                let y = integer_part(self.y);
                self.y = self.y.wrapping_add(dy);
                self.f0 = y.wrapping_sub(self.y0);
                self.y0 = y;
            },
            None => {
                self.y = self.y.wrapping_add(self.f);
                self.x = self.x.wrapping_add(self.f0);
                self.y0 = self.y0.wrapping_add(self.f0);
            },
        }
    }

    /// The current phase estimate.
    pub fn phase(&self) -> (r: i32)
        ensures
            r == self.y0,
    {
        self.y0
    }

    /// The current frequency estimate.
    pub fn frequency(&self) -> (r: i32)
        ensures
            r == self.f0,
    {
        self.f0
    }
}

/// The loop is locked onto an input that advances by `f0` per sample: the
/// filtered frequency is exactly `f0`, the filtered phase exactly the last
/// input, and the visible estimates agree.
pub open spec fn locked(p: PLL, f0: i32) -> bool {
    &&& p.f as int == f0 as int * 0x1_0000_0000
    &&& p.y as int == p.x as int * 0x1_0000_0000
    &&& p.y0 == p.x
    &&& p.f0 == f0
}

proof fn lemma_high_of_scaled(a: i32, v: i64)
    by (bit_vector)
    requires
        v == a as i64 * 0x1_0000_0000,
    ensures
        (v >> 32u64) as i32 == a,
{
}

/// A locked loop stays locked, with no error, while the input keeps
/// advancing by the same frequency (the loop has two integrators), for any
/// gain.
pub proof fn lemma_locked_is_steady(p: PLL, f0: i32, k: i32)
    requires
        locked(p, f0),
    ensures
        locked(p.next(Some(p.x.wrapping_add(f0)), k), f0),
        p.next(Some(p.x.wrapping_add(f0)), k).x == p.x.wrapping_add(f0),
{
    let x = p.x.wrapping_add(f0);
    lemma_high_of_scaled(f0, p.f);
    assert(x.wrapping_sub(p.x) == f0);
    assert(high(p.f) == f0);
    assert(x.wrapping_sub(p.x).wrapping_sub(high(p.f)) == 0);
    assert((0i32 as i64 * k as i64) as i64 == 0);
    let df = (x.wrapping_sub(p.x).wrapping_sub(high(p.f)) as i64 * k as i64) as i64;
    assert(df == 0);
    let f1 = p.f.wrapping_add(df);
    assert(f1 == p.f);
    let y1 = p.y.wrapping_add(f1);
    assert(y1 as int == x as int * 0x1_0000_0000);
    lemma_high_of_scaled(x, y1);
    let dy = (x.wrapping_sub(high(y1)) as i64 * k as i64) as i64;
    assert(dy == 0);
}

impl Default for PLL {
    /// The zero state.
    fn default() -> (r: PLL)
        ensures
            r == PLL::zero(),
    {
        PLL { x: 0, y0: 0, f0: 0, f: 0, y: 0 }
    }
}

} // verus!
