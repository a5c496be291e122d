//! The laws of the replay state machine, stated and proved once over every
//! bar sequence, decision sequence and investment.

use vstd::prelude::*;

use crate::rat::{lemma_nonzero_mul, q_add, q_wf, q_zero, Q, Rat};
use crate::sim::{
    dispersion_at, init_state, pnl_of, state_at, trace_matches, wants_buy, wants_sell, Bar,
    Decision,
};

verus! {

/// The step at index `i` executes a sale: a sell is requested while holding.
pub open spec fn is_sell_step(bars: Seq<Bar>, dec: Seq<Decision>, investment: Q, i: int) -> bool {
    !wants_buy(state_at(bars, dec, investment, i - 1), dec[i]) && wants_sell(
        state_at(bars, dec, investment, i - 1),
        dec[i],
    )
}

/// The step at index `i` opens a position: a buy is requested while flat at
/// a bar whose open price is nonzero.
pub open spec fn is_open_step(bars: Seq<Bar>, dec: Seq<Decision>, investment: Q, i: int) -> bool {
    wants_buy(state_at(bars, dec, investment, i - 1), dec[i]) && bars[i].open@.num != 0
}

/// Law: a run over zero or one bars does nothing. No position is ever
/// opened, and every entry of both series (there is at most one) is zero.
pub proof fn lemma_trivial_run(bars: Seq<Bar>, dec: Seq<Decision>, investment: Q, i: int)
    requires
        bars.len() <= 1,
        0 <= i < bars.len(),
    ensures
        state_at(bars, dec, investment, i) == init_state(),
        state_at(bars, dec, investment, i).profit == q_zero(),
        state_at(bars, dec, investment, i).shares == q_zero(),
        dispersion_at(bars, dec, investment, i) == q_zero(),
{
}

/// Law: the first consulted step can never realize a sale, because the run
/// starts flat. Both accumulators are still zero after it, which is why the
/// dispersion entry at index one (whose elapsed-bar denominator is zero) is
/// defined as zero.
pub proof fn lemma_first_step_banks_nothing(bars: Seq<Bar>, dec: Seq<Decision>, investment: Q)
    ensures
        state_at(bars, dec, investment, 1).profit == q_zero(),
        state_at(bars, dec, investment, 1).sumsq == q_zero(),
        !is_sell_step(bars, dec, investment, 1),
{
    assert(state_at(bars, dec, investment, 0) == init_state());
}

/// Law: cumulative profit changes exactly at sell steps, by exactly the
/// realized profit-and-loss of the closed position, and is unchanged at
/// every other step; the running sum of squared outcomes moves in lockstep.
pub proof fn lemma_profit_changes_only_at_sales(
    bars: Seq<Bar>,
    dec: Seq<Decision>,
    investment: Q,
    i: int,
)
    requires
        1 <= i,
    ensures
        is_sell_step(bars, dec, investment, i) ==> state_at(bars, dec, investment, i).profit
            == q_add(
            state_at(bars, dec, investment, i - 1).profit,
            pnl_of(state_at(bars, dec, investment, i - 1), bars[i].open@),
        ),
        !is_sell_step(bars, dec, investment, i) ==> state_at(bars, dec, investment, i).profit
            == state_at(bars, dec, investment, i - 1).profit,
        !is_sell_step(bars, dec, investment, i) ==> state_at(bars, dec, investment, i).sumsq
            == state_at(bars, dec, investment, i - 1).sumsq,
{
}

/// Law: a position can be opened only from the flat state.
pub proof fn lemma_open_only_when_flat(bars: Seq<Bar>, dec: Seq<Decision>, investment: Q, i: int)
    requires
        1 <= i,
    ensures
        is_open_step(bars, dec, investment, i) ==> state_at(
            bars,
            dec,
            investment,
            i - 1,
        ).shares.num == 0,
{
}

/// Law: while holding, the whole state is unchanged until the next sell
/// step. Only a sale can leave the holding state.
pub proof fn lemma_holding_persists(
    bars: Seq<Bar>,
    dec: Seq<Decision>,
    investment: Q,
    i: int,
    j: int,
)
    requires
        0 <= i <= j,
        state_at(bars, dec, investment, i).shares.num != 0,
        forall|k: int| i < k <= j ==> !is_sell_step(bars, dec, investment, k),
    ensures
        state_at(bars, dec, investment, j) == state_at(bars, dec, investment, i),
    decreases j - i,
{
    if j > i {
        lemma_holding_persists(bars, dec, investment, i, j - 1);
        assert(!is_sell_step(bars, dec, investment, j));
    }
}

/// Law: no double-buying. If the steps at `i` and `j` both open a position
/// (with a nonzero investment, so that an opened position actually holds a
/// nonzero share count), some step strictly between them must have sold.
pub proof fn lemma_no_double_open(bars: Seq<Bar>, dec: Seq<Decision>, investment: Q, i: int, j: int)
    requires
        1 <= i < j,
        investment.num != 0,
        q_wf(bars[i].open@),
        is_open_step(bars, dec, investment, i),
        is_open_step(bars, dec, investment, j),
    ensures
        exists|k: int| i < k < j && is_sell_step(bars, dec, investment, k),
{
    lemma_nonzero_mul(investment.num, bars[i].open@.den);
    assert(state_at(bars, dec, investment, i).shares.num != 0);
    if !(exists|k: int| i < k < j && is_sell_step(bars, dec, investment, k)) {
        assert(forall|k: int| i < k <= j - 1 ==> !is_sell_step(bars, dec, investment, k));
        lemma_holding_persists(bars, dec, investment, i, j - 1);
        assert(false);
    }
}

/// Law, on the output series themselves: every entry of a run over zero or
/// one bars is zero.
pub proof fn lemma_series_trivial_run(
    bars: Seq<Bar>,
    dec: Seq<Decision>,
    investment: Q,
    profits: Vec<Rat>,
    disps: Vec<Rat>,
    i: int,
)
    requires
        trace_matches(bars, dec, investment, profits, disps),
        bars.len() <= 1,
        0 <= i < bars.len(),
    ensures
        profits@[i]@ == q_zero(),
        disps@[i]@ == q_zero(),
{
    lemma_trivial_run(bars, dec, investment, i);
}

/// Law, on the output series themselves: the cumulative-profit entry moves
/// exactly at sell steps, by exactly the realized profit-and-loss, and
/// repeats the previous entry everywhere else.
pub proof fn lemma_series_profit_changes_only_at_sales(
    bars: Seq<Bar>,
    dec: Seq<Decision>,
    investment: Q,
    profits: Vec<Rat>,
    disps: Vec<Rat>,
    i: int,
)
    requires
        trace_matches(bars, dec, investment, profits, disps),
        1 <= i < bars.len(),
    ensures
        is_sell_step(bars, dec, investment, i) ==> profits@[i]@ == q_add(
            profits@[i - 1]@,
            pnl_of(state_at(bars, dec, investment, i - 1), bars[i].open@),
        ),
        !is_sell_step(bars, dec, investment, i) ==> profits@[i]@ == profits@[i - 1]@,
{
    lemma_profit_changes_only_at_sales(bars, dec, investment, i);
}

} // verus!
