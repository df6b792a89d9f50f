//! Fixed-point signal processing kernels for real-time sample loops:
//! a table-based cosine/sine evaluator on a wrapped 32-bit phase, two
//! type-II phase-locked loops working in wrapping integer arithmetic, and
//! the history handling of a biquad filter.
pub mod cossin;
pub mod iir;
pub mod pll;
pub mod shift_pll;
