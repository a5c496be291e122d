//! The two backtesters: the deterministic previous-bar signal rule and the
//! fair-coin baseline, both instantiating the shared replay engine.

use vstd::prelude::*;

use crate::rat::{q_lt, Rat};
use crate::sim::{bars_wf, replay, replay_ensures, Bar, Decision};
use crate::SimError;

verus! {

/// The decision derived from the previous bar: buy when its close exceeded
/// its open, sell when its close was below its open, otherwise hold.
pub open spec fn signal_decision(prev: Bar) -> Decision {
    Decision { buy: q_lt(prev.open@, prev.close@), sell: q_lt(prev.close@, prev.open@) }
}

/// The per-bar decisions of the signal strategy: index `i` looks back at bar
/// `i - 1`; index zero is never consulted.
pub open spec fn signal_decisions(bars: Seq<Bar>) -> Seq<Decision> {
    Seq::new(
        bars.len(),
        |i: int|
            if i == 0 {
                Decision { buy: false, sell: false }
            } else {
                signal_decision(bars[i - 1])
            },
    )
}

/// Replays a price history under the deterministic rule: buy at a bar's
/// open when the previous bar closed above its open, sell at a bar's open
/// when the previous bar closed below its open.
pub struct SignalBacktester;

impl SignalBacktester {
    /// Runs the signal strategy over `bars` with the fixed `investment`
    /// staked at every buy, returning the cumulative-profit and
    /// running-dispersion series, one entry per bar.
    pub fn run(bars: &Vec<Bar>, investment: &Rat) -> (r: Result<(Vec<Rat>, Vec<Rat>), SimError>)
        requires
            bars_wf(bars@),
            investment.wf(),
            bars@.len() <= 0x7fff_ffff_ffff_ffff,
        ensures
            replay_ensures(bars@, signal_decisions(bars@), investment@, r),
    {
        let n = bars.len();
        let mut decisions: Vec<Decision> = Vec::new();
        let mut i: usize = 0;
        while i < n
            invariant
                0 <= i <= n,
                n == bars@.len(),
                bars_wf(bars@),
                decisions@.len() == i,
                forall|j: int|
                    0 <= j < i ==> #[trigger] decisions@[j] == signal_decisions(bars@)[j],
            decreases n - i,
        {
            if i == 0 {
                decisions.push(Decision { buy: false, sell: false });
            } else {
                let prev = &bars[i - 1];
                decisions.push(
                    Decision { buy: prev.open.lt(&prev.close), sell: prev.close.lt(&prev.open) },
                );
            }
            i = i + 1;
        }
        proof {
            assert(decisions@ =~= signal_decisions(bars@));
        }
        replay(bars, investment, &decisions)
    }
}

/// The per-bar decisions induced by a sequence of coin flips: a flip at
/// index `i` requests both a buy and a sell, and the position state picks
/// which of the two executes; index zero is never consulted.
pub open spec fn flip_decisions(flips: Seq<bool>) -> Seq<Decision> {
    Seq::new(
        flips.len(),
        |i: int|
            if i == 0 {
                Decision { buy: false, sell: false }
            } else {
                Decision { buy: flips[i], sell: flips[i] }
            },
    )
}

/// A decision sequence in which every consulted entry requests buy and sell
/// alike, as a coin flip does.
pub open spec fn coin_decisions(dec: Seq<Decision>) -> bool {
    forall|i: int| 1 <= i < dec.len() ==> (#[trigger] dec[i]).buy == dec[i].sell
}

/// Relies on rand::random::<bool>: one draw from the process-wide random
/// source; each outcome is equally likely and nothing is promised of it.
#[verifier::external_body]
fn coin_flip() -> bool {
    rand::random()
}

/// Replays a price history acting on one independent fair coin flip per
/// bar: heads opens the position when flat and closes it when holding.
pub struct RandomBacktester;

impl RandomBacktester {
    /// Runs the baseline over `bars` with the given per-bar `flips` (entry
    /// zero is never consulted), returning the cumulative-profit and
    /// running-dispersion series, one entry per bar.
    pub fn run_with_flips(bars: &Vec<Bar>, investment: &Rat, flips: &Vec<bool>) -> (r: Result<
        (Vec<Rat>, Vec<Rat>),
        SimError,
    >)
        requires
            bars_wf(bars@),
            investment.wf(),
            flips@.len() == bars@.len(),
            bars@.len() <= 0x7fff_ffff_ffff_ffff,
        ensures
            replay_ensures(bars@, flip_decisions(flips@), investment@, r),
    {
        let n = bars.len();
        let mut decisions: Vec<Decision> = Vec::new();
        let mut i: usize = 0;
        while i < n
            invariant
                0 <= i <= n,
                n == bars@.len(),
                flips@.len() == n,
                decisions@.len() == i,
                forall|j: int|
                    0 <= j < i ==> #[trigger] decisions@[j] == flip_decisions(flips@)[j],
            decreases n - i,
        {
            if i == 0 {
                decisions.push(Decision { buy: false, sell: false });
            } else {
                let f = flips[i];
                decisions.push(Decision { buy: f, sell: f });
            }
            i = i + 1;
        }
        proof {
            assert(decisions@ =~= flip_decisions(flips@));
        }
        replay(bars, investment, &decisions)
    }

    /// Runs the baseline over `bars`, drawing one fresh coin flip per bar
    /// from the process-wide random source. Whatever the draws, the result
    /// is a replay of `bars` under some buy-equals-sell decision sequence.
    pub fn run(bars: &Vec<Bar>, investment: &Rat) -> (r: Result<(Vec<Rat>, Vec<Rat>), SimError>)
        requires
            bars_wf(bars@),
            investment.wf(),
            bars@.len() <= 0x7fff_ffff_ffff_ffff,
        ensures
            exists|dec: Seq<Decision>|
                #[trigger] replay_ensures(bars@, dec, investment@, r) && dec.len() == bars@.len()
                    && coin_decisions(dec),
    {
        let n = bars.len();
        let mut flips: Vec<bool> = Vec::new();
        let mut i: usize = 0;
        while i < n
            invariant
                0 <= i <= n,
                flips@.len() == i,
            decreases n - i,
        {
            flips.push(coin_flip());
            i = i + 1;
        }
        let r = Self::run_with_flips(bars, investment, &flips);
        proof {
            let dec = flip_decisions(flips@);
            assert(replay_ensures(bars@, dec, investment@, r) && dec.len() == bars@.len()
                && coin_decisions(dec));
        }
        r
    }
}

} // verus!
