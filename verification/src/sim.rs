//! The position-replay engine shared by both backtesters.
//!
//! A replay walks a bar sequence from index one, deciding at each index from
//! a per-bar [`Decision`] whether to open or close a position at that bar's
//! open price, and appends one entry per bar to a cumulative-profit series
//! and a running-dispersion series. The mathematical behaviour is pinned by
//! the recursive ghost state machine [`state_at`].

use vstd::prelude::*;

use crate::rat::{q_add, q_div, q_fits, q_int, q_lt, q_mul, q_sub, q_wf, q_zero, Q, Rat};
use crate::SimError;

verus! {

/// A calendar date carried alongside each bar. The engine never interprets
/// it; the sequence is assumed ordered by its producer.
#[derive(Clone, Copy, Debug, PartialEq, Eq, Structural)]
pub struct Date {
    pub year: i32,
    pub month: u8,
    pub day: u8,
}

/// One daily price record: open/high/low/close, adjusted close and volume.
#[derive(Clone, Copy, Debug)]
pub struct Bar {
    pub date: Date,
    pub open: Rat,
    pub high: Rat,
    pub low: Rat,
    pub close: Rat,
    pub adj_close: Rat,
    pub volume: u32,
}

impl Bar {
    /// All price fields are well-formed rationals.
    pub open spec fn wf(self) -> bool {
        self.open.wf() && self.high.wf() && self.low.wf() && self.close.wf()
            && self.adj_close.wf()
    }
}

pub open spec fn bars_wf(bars: Seq<Bar>) -> bool {
    forall|i: int| 0 <= i < bars.len() ==> (#[trigger] bars[i]).wf()
}

/// One step's intent: whether a buy and whether a sell is requested. A buy
/// executes only from the flat state, a sell only while holding.
#[derive(Clone, Copy, Debug, PartialEq, Eq, Structural)]
pub struct Decision {
    pub buy: bool,
    pub sell: bool,
}

/// The ghost view of a [`Position`].
pub ghost struct PositionView {
    pub shares: Q,
    pub entry_price: Q,
}

/// The position state shared by both backtesters: a share count (zero means
/// flat, any nonzero value means holding) and the recorded entry price,
/// meaningful only while holding. Positions are fully opened or fully
/// closed, never scaled.
#[derive(Clone, Copy, Debug)]
pub struct Position {
    shares: Rat,
    entry_price: Rat,
}

impl View for Position {
    type V = PositionView;

    closed spec fn view(&self) -> PositionView {
        PositionView { shares: self.shares@, entry_price: self.entry_price@ }
    }
}

impl Position {
    pub open spec fn wf(self) -> bool {
        q_wf(self@.shares) && q_wf(self@.entry_price)
    }

    /// A fresh, flat position.
    pub fn new() -> (p: Position)
        ensures
            p@.shares == q_zero(),
            p@.entry_price == q_zero(),
            p.wf(),
    {
        Position { shares: Rat::zero(), entry_price: Rat::zero() }
    }

    pub fn is_flat(&self) -> (r: bool)
        ensures
            r == (self@.shares.num == 0),
    {
        self.shares.is_zero()
    }

    /// Opens the position in full: records the share count and entry price.
    pub fn enter_at(&mut self, shares: Rat, entry_price: Rat)
        requires
            shares.wf(),
            entry_price.wf(),
        ensures
            final(self)@.shares == shares@,
            final(self)@.entry_price == entry_price@,
            final(self).wf(),
    {
        self.shares = shares;
        self.entry_price = entry_price;
    }

    /// Closes the position in full, back to flat.
    pub fn clear(&mut self)
        ensures
            final(self)@.shares == q_zero(),
            final(self)@.entry_price == q_zero(),
            final(self).wf(),
    {
        self.shares = Rat::zero();
        self.entry_price = Rat::zero();
    }

    /// The profit-and-loss realized by selling the whole position at
    /// `exit_price`: `shares * (exit_price - entry_price)`.
    pub fn pnl_at(&self, exit_price: &Rat) -> (r: Option<Rat>)
        requires
            self.wf(),
            exit_price.wf(),
        ensures
            r is Some <==> (q_fits(q_sub(exit_price@, self@.entry_price)) && q_fits(
                q_mul(self@.shares, q_sub(exit_price@, self@.entry_price)),
            )),
            (r matches Some(p) ==> p@ == q_mul(
                self@.shares,
                q_sub(exit_price@, self@.entry_price),
            ) && p.wf()),
    {
        match exit_price.checked_sub(&self.entry_price) {
            Some(diff) => self.shares.checked_mul(&diff),
            None => None,
        }
    }
}

/// The ghost state of one replay: the position and the two accumulators
/// (cumulative banked profit, cumulative squared realized profit-and-loss).
pub ghost struct RunState {
    pub shares: Q,
    pub entry: Q,
    pub profit: Q,
    pub sumsq: Q,
}

pub open spec fn init_state() -> RunState {
    RunState { shares: q_zero(), entry: q_zero(), profit: q_zero(), sumsq: q_zero() }
}

/// A buy executes when requested in the flat state.
pub open spec fn wants_buy(st: RunState, d: Decision) -> bool {
    d.buy && st.shares.num == 0
}

/// A sell executes when requested while holding.
pub open spec fn wants_sell(st: RunState, d: Decision) -> bool {
    d.sell && st.shares.num != 0
}

/// The profit-and-loss of closing state `st` at `open_price`.
pub open spec fn pnl_of(st: RunState, open_price: Q) -> Q {
    q_mul(st.shares, q_sub(open_price, st.entry))
}

/// One transition of the replay state machine, executed at a bar's open
/// price. A buy at a bar whose open is exactly zero is ignored (the share
/// count would be unbounded); this is the engine's explicit rule for that
/// malformed-bar edge case.
pub open spec fn step_state(st: RunState, d: Decision, open_price: Q, investment: Q) -> RunState {
    if wants_buy(st, d) {
        if open_price.num == 0 {
            st
        } else {
            RunState {
                shares: q_div(investment, open_price),
                entry: open_price,
                profit: st.profit,
                sumsq: st.sumsq,
            }
        }
    } else if wants_sell(st, d) {
        RunState {
            shares: q_zero(),
            entry: q_zero(),
            profit: q_add(st.profit, pnl_of(st, open_price)),
            sumsq: q_add(st.sumsq, q_mul(pnl_of(st, open_price), pnl_of(st, open_price))),
        }
    } else {
        st
    }
}

/// The replay state after the steps at indices `1..=i` (the step at index
/// zero never runs: decisions look back at the previous bar).
pub open spec fn state_at(bars: Seq<Bar>, dec: Seq<Decision>, investment: Q, i: int) -> RunState
    decreases i,
{
    if i <= 0 {
        init_state()
    } else {
        step_state(state_at(bars, dec, investment, i - 1), dec[i], bars[i].open@, investment)
    }
}

/// The running dispersion statistic at index `i`: the cumulative sum of
/// squared realized profit-and-loss divided by the elapsed bar count
/// `i - 1`. At index one that denominator is zero, but no sale can have been
/// realized yet (the run starts flat), so the sum is still zero and the
/// entry is defined as zero; see [`crate::laws::lemma_first_step_banks_nothing`].
pub open spec fn dispersion_at(bars: Seq<Bar>, dec: Seq<Decision>, investment: Q, i: int) -> Q {
    if i <= 1 {
        q_zero()
    } else {
        q_div(state_at(bars, dec, investment, i).sumsq, q_int(i - 1))
    }
}

/// Every exact rational produced by the step at index `i` stays inside the
/// representable range.
pub open spec fn step_fits(st: RunState, d: Decision, open_price: Q, investment: Q) -> bool {
    if wants_buy(st, d) {
        open_price.num == 0 || q_fits(q_div(investment, open_price))
    } else if wants_sell(st, d) {
        q_fits(q_sub(open_price, st.entry)) && q_fits(pnl_of(st, open_price)) && q_fits(
            q_add(st.profit, pnl_of(st, open_price)),
        ) && q_fits(q_mul(pnl_of(st, open_price), pnl_of(st, open_price))) && q_fits(
            q_add(st.sumsq, q_mul(pnl_of(st, open_price), pnl_of(st, open_price))),
        )
    } else {
        true
    }
}

/// The dispersion entry at index `i` is representable.
pub open spec fn disp_fits(bars: Seq<Bar>, dec: Seq<Decision>, investment: Q, i: int) -> bool {
    i <= 1 || q_fits(q_div(state_at(bars, dec, investment, i).sumsq, q_int(i - 1)))
}

pub open spec fn step_ok(bars: Seq<Bar>, dec: Seq<Decision>, investment: Q, i: int) -> bool {
    step_fits(state_at(bars, dec, investment, i - 1), dec[i], bars[i].open@, investment)
        && disp_fits(bars, dec, investment, i)
}

/// All steps up to and including index `n` are representable.
pub open spec fn run_fits(bars: Seq<Bar>, dec: Seq<Decision>, investment: Q, n: int) -> bool {
    forall|j: int| 1 <= j <= n ==> #[trigger] step_ok(bars, dec, investment, j)
}

/// The two output series match the ghost state machine entry by entry.
pub open spec fn trace_matches(
    bars: Seq<Bar>,
    dec: Seq<Decision>,
    investment: Q,
    profits: Vec<Rat>,
    disps: Vec<Rat>,
) -> bool {
    &&& profits@.len() == bars.len()
    &&& disps@.len() == bars.len()
    &&& forall|i: int|
        0 <= i < bars.len() ==> ((#[trigger] profits@[i])@ == state_at(
            bars,
            dec,
            investment,
            i,
        ).profit && profits@[i].wf())
    &&& forall|i: int|
        0 <= i < bars.len() ==> ((#[trigger] disps@[i])@ == dispersion_at(bars, dec, investment, i)
            && disps@[i].wf())
}

/// The full contract of a replay: a negative investment is rejected before
/// any work, an unrepresentable intermediate reports overflow, and a
/// successful run returns exactly the two series of the ghost machine.
pub open spec fn replay_ensures(
    bars: Seq<Bar>,
    dec: Seq<Decision>,
    investment: Q,
    r: Result<(Vec<Rat>, Vec<Rat>), SimError>,
) -> bool {
    &&& ((r is Err && r->Err_0 == SimError::InvalidParameter) <==> q_lt(investment, q_zero()))
    &&& (!q_lt(investment, q_zero()) ==> ((r is Err && r->Err_0 == SimError::Overflow) <==>
        !run_fits(bars, dec, investment, bars.len() as int - 1)))
    &&& (r matches Ok(out) ==> trace_matches(bars, dec, investment, out.0, out.1))
}

/// Executes one replay step against the live position and accumulators.
/// Returns false exactly when an intermediate left the representable range,
/// in which case the outputs are unspecified (the caller abandons the run).
fn exec_step(
    pos: &mut Position,
    profit_acc: &mut Rat,
    sumsq_acc: &mut Rat,
    d: Decision,
    open_price: &Rat,
    investment: &Rat,
) -> (ok: bool)
    requires
        old(pos).wf(),
        old(profit_acc).wf(),
        old(sumsq_acc).wf(),
        open_price.wf(),
        investment.wf(),
    ensures
        ({
            let pre = RunState {
                shares: old(pos)@.shares,
                entry: old(pos)@.entry_price,
                profit: old(profit_acc)@,
                sumsq: old(sumsq_acc)@,
            };
            let post = step_state(pre, d, open_price@, investment@);
            &&& ok == step_fits(pre, d, open_price@, investment@)
            &&& (ok ==> final(pos)@.shares == post.shares && final(pos)@.entry_price == post.entry
                && final(profit_acc)@ == post.profit && final(sumsq_acc)@ == post.sumsq
                && final(pos).wf() && final(profit_acc).wf() && final(sumsq_acc).wf())
        }),
{
    let flat = pos.is_flat();
    if d.buy && flat {
        if open_price.is_zero() {
            true
        } else {
            match investment.checked_div(open_price) {
                Some(sh) => {
                    pos.enter_at(sh, *open_price);
                    true
                },
                None => false,
            }
        }
    } else if d.sell && !flat {
        match pos.pnl_at(open_price) {
            Some(pnl) => {
                match profit_acc.checked_add(&pnl) {
                    Some(np) => {
                        match pnl.checked_mul(&pnl) {
                            Some(sq) => {
                                match sumsq_acc.checked_add(&sq) {
                                    Some(ns) => {
                                        *profit_acc = np;
                                        *sumsq_acc = ns;
                                        pos.clear();
                                        true
                                    },
                                    None => false,
                                }
                            },
                            None => false,
                        }
                    },
                    None => false,
                }
            },
            None => false,
        }
    } else {
        true
    }
}

/// Replays `bars` under the per-bar `decisions`, returning the
/// cumulative-profit series and the running-dispersion series, one entry
/// per bar.
pub fn replay(bars: &Vec<Bar>, investment: &Rat, decisions: &Vec<Decision>) -> (r: Result<
    (Vec<Rat>, Vec<Rat>),
    SimError,
>)
    requires
        bars_wf(bars@),
        investment.wf(),
        decisions@.len() == bars@.len(),
        bars@.len() <= 0x7fff_ffff_ffff_ffff,
    ensures
        replay_ensures(bars@, decisions@, investment@, r),
{
    let zero = Rat::zero();
    if investment.lt(&zero) {
        return Err(SimError::InvalidParameter);
    }
    let n = bars.len();
    let mut profits: Vec<Rat> = Vec::new();
    let mut disps: Vec<Rat> = Vec::new();
    if n == 0 {
        return Ok((profits, disps));
    }
    profits.push(Rat::zero());
    disps.push(Rat::zero());
    let mut pos = Position::new();
    let mut profit_acc = Rat::zero();
    let mut sumsq_acc = Rat::zero();
    let mut i: usize = 1;
    while i < n
        invariant
            1 <= i <= n,
            n == bars@.len(),
            n <= 0x7fff_ffff_ffff_ffff,
            decisions@.len() == n,
            bars_wf(bars@),
            investment.wf(),
            !q_lt(investment@, q_zero()),
            profits@.len() == i,
            disps@.len() == i,
            forall|j: int|
                0 <= j < i ==> ((#[trigger] profits@[j])@ == state_at(
                    bars@,
                    decisions@,
                    investment@,
                    j,
                ).profit && profits@[j].wf()),
            forall|j: int|
                0 <= j < i ==> ((#[trigger] disps@[j])@ == dispersion_at(
                    bars@,
                    decisions@,
                    investment@,
                    j,
                ) && disps@[j].wf()),
            pos@.shares == state_at(bars@, decisions@, investment@, i - 1).shares,
            pos@.entry_price == state_at(bars@, decisions@, investment@, i - 1).entry,
            pos.wf(),
            profit_acc@ == state_at(bars@, decisions@, investment@, i - 1).profit,
            profit_acc.wf(),
            sumsq_acc@ == state_at(bars@, decisions@, investment@, i - 1).sumsq,
            sumsq_acc.wf(),
            run_fits(bars@, decisions@, investment@, i - 1),
        decreases n - i,
    {
        let d = decisions[i];
        let open_price = bars[i].open;
        let ok = exec_step(&mut pos, &mut profit_acc, &mut sumsq_acc, d, &open_price, investment);
        if !ok {
            proof {
                assert(!step_ok(bars@, decisions@, investment@, i as int));
            }
            return Err(SimError::Overflow);
        }
        profits.push(profit_acc);
        if i == 1 {
            disps.push(Rat::zero());
        } else {
            let divisor = Rat::from_int((i - 1) as i64);
            match sumsq_acc.checked_div(&divisor) {
                Some(dv) => {
                    disps.push(dv);
                },
                None => {
                    proof {
                        assert(!step_ok(bars@, decisions@, investment@, i as int));
                    }
                    return Err(SimError::Overflow);
                },
            }
        }
        proof {
            assert(step_ok(bars@, decisions@, investment@, i as int));
            assert(run_fits(bars@, decisions@, investment@, i as int));
        }
        i = i + 1;
    }
    Ok((profits, disps))
}

} // verus!
