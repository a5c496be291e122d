//! A verified long/flat backtesting engine over exact rational prices.
//!
//! The library replays a daily price history through a position state
//! machine, producing a cumulative-profit series and a running dispersion
//! series, either from a deterministic signal (previous bar's close versus
//! open) or from a fair coin flip per bar, and builds synthetic price paths
//! as cumulative sums of caller-supplied increments.

pub mod laws;
pub mod rat;
pub mod series;
pub mod sim;
pub mod strategy;

use vstd::prelude::*;

verus! {

/// Failures reported by the simulation routines.
#[derive(Clone, Copy, Debug, PartialEq, Eq, Structural)]
pub enum SimError {
    /// An out-of-domain numeric input: negative investment, non-positive
    /// spread, or a zero requested length.
    InvalidParameter,
    /// An exact rational intermediate fell outside the representable range.
    Overflow,
}

} // verus!
