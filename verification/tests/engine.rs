use tradesim::rat::Rat;
use tradesim::series::PriceSeriesGenerator;
use tradesim::sim::{Bar, Date, Position};
use tradesim::strategy::{RandomBacktester, SignalBacktester};
use tradesim::SimError;

fn day(d: u8) -> Date {
    Date { year: 2020, month: 1, day: d }
}

fn bar(d: u8, open: i64, close: i64) -> Bar {
    Bar {
        date: day(d),
        open: Rat::from_int(open),
        high: Rat::from_int(if open > close { open } else { close }),
        low: Rat::from_int(if open < close { open } else { close }),
        close: Rat::from_int(close),
        adj_close: Rat::from_int(close),
        volume: 100,
    }
}

fn assert_val(got: &Rat, num: i64, den: i64) {
    let want = Rat::new(num, den);
    assert!(
        got.eq_value(&want),
        "expected {}/{}, got {}/{}",
        num,
        den,
        got.numerator(),
        got.denominator()
    );
}

#[test]
fn signal_empty_bars_yield_empty_series() {
    let bars: Vec<Bar> = Vec::new();
    let inv = Rat::from_int(1000);
    let (profits, disps) = SignalBacktester::run(&bars, &inv).unwrap();
    assert!(profits.is_empty());
    assert!(disps.is_empty());
}

#[test]
fn signal_single_bar_yields_single_zero() {
    let bars = vec![bar(1, 10, 12)];
    let inv = Rat::from_int(1000);
    let (profits, disps) = SignalBacktester::run(&bars, &inv).unwrap();
    assert_eq!(profits.len(), 1);
    assert_eq!(disps.len(), 1);
    assert_val(&profits[0], 0, 1);
    assert_val(&disps[0], 0, 1);
}

#[test]
fn random_trivial_runs_yield_zero_series() {
    let inv = Rat::from_int(1000);
    let none: Vec<Bar> = Vec::new();
    let (profits, disps) = RandomBacktester::run(&none, &inv).unwrap();
    assert!(profits.is_empty());
    assert!(disps.is_empty());
    let one = vec![bar(1, 10, 12)];
    let (profits, disps) = RandomBacktester::run(&one, &inv).unwrap();
    assert_eq!(profits.len(), 1);
    assert_eq!(disps.len(), 1);
    assert_val(&profits[0], 0, 1);
    assert_val(&disps[0], 0, 1);
}

#[test]
fn example_scenario_buy_then_sell() {
    // bars: (open 10, close 12), (open 11, close 9), (open 13, close 13),
    // investment 1000. The buy executes at open 11 (shares 1000/11), the
    // sell at open 13: pnl = 1000/11 * 2 = 2000/11; the dispersion entry is
    // (2000/11)^2 / 1 = 4000000/121.
    let bars = vec![bar(1, 10, 12), bar(2, 11, 9), bar(3, 13, 13)];
    let inv = Rat::from_int(1000);
    let (profits, disps) = SignalBacktester::run(&bars, &inv).unwrap();
    assert_eq!(profits.len(), 3);
    assert_eq!(disps.len(), 3);
    assert_val(&profits[0], 0, 1);
    assert_val(&profits[1], 0, 1);
    assert_val(&profits[2], 2000, 11);
    assert_val(&disps[0], 0, 1);
    assert_val(&disps[1], 0, 1);
    assert_val(&disps[2], 4000000, 121);
}

#[test]
fn profit_changes_only_at_the_sale() {
    // Buy at bar 1, hold through bars 2 and 3 (equal close and open give no
    // signal), sell at bar 4. The profit series moves only at the sale.
    let bars = vec![
        bar(1, 10, 12),
        bar(2, 11, 11),
        bar(3, 11, 11),
        bar(4, 12, 8),
        bar(5, 14, 14),
    ];
    let inv = Rat::from_int(1100);
    let (profits, _) = SignalBacktester::run(&bars, &inv).unwrap();
    // shares = 1100/11 = 100; pnl = 100 * (14 - 11) = 300.
    assert_val(&profits[0], 0, 1);
    assert_val(&profits[1], 0, 1);
    assert_val(&profits[2], 0, 1);
    assert_val(&profits[3], 0, 1);
    assert_val(&profits[4], 300, 1);
}

#[test]
fn repeated_buy_signals_do_not_double_buy() {
    // Every bar closes above its open, so a buy is requested at every step;
    // only the first can execute, and nothing ever sells.
    let bars = vec![bar(1, 10, 12), bar(2, 10, 12), bar(3, 10, 12), bar(4, 10, 12)];
    let inv = Rat::from_int(1000);
    let (profits, disps) = SignalBacktester::run(&bars, &inv).unwrap();
    for p in &profits {
        assert_val(p, 0, 1);
    }
    for d in &disps {
        assert_val(d, 0, 1);
    }
}

#[test]
fn random_run_with_flips_replays_exactly() {
    // Flip at bar 1 opens (open 10, shares 50), flip at bar 2 closes at
    // open 12: pnl = 50 * 2 = 100; dispersion entry 2 is 100^2 / 1.
    let bars = vec![bar(1, 9, 9), bar(2, 10, 10), bar(3, 12, 12), bar(4, 13, 13)];
    let flips = vec![false, true, true, false];
    let inv = Rat::from_int(500);
    let (profits, disps) = RandomBacktester::run_with_flips(&bars, &inv, &flips).unwrap();
    assert_val(&profits[0], 0, 1);
    assert_val(&profits[1], 0, 1);
    assert_val(&profits[2], 100, 1);
    assert_val(&profits[3], 100, 1);
    assert_val(&disps[2], 10000, 1);
    // at index 3 the elapsed-bar denominator is 2: 10000 / 2
    assert_val(&disps[3], 10000, 2);
}

#[test]
fn random_run_emits_one_entry_per_bar() {
    // Whatever the process-wide coin flips, a run over small prices cannot
    // overflow, starts at zero profit, and emits one entry per bar.
    let bars = vec![
        bar(1, 10, 12),
        bar(2, 11, 9),
        bar(3, 13, 13),
        bar(4, 12, 14),
        bar(5, 15, 11),
    ];
    let inv = Rat::from_int(1000);
    let (profits, disps) = RandomBacktester::run(&bars, &inv).unwrap();
    assert_eq!(profits.len(), 5);
    assert_eq!(disps.len(), 5);
    assert_val(&profits[0], 0, 1);
    assert_val(&disps[0], 0, 1);
    assert_val(&disps[1], 0, 1);
}

#[test]
fn negative_investment_is_invalid_parameter() {
    let bars = vec![bar(1, 10, 12), bar(2, 11, 9)];
    let inv = Rat::from_int(-1);
    assert_eq!(
        SignalBacktester::run(&bars, &inv).unwrap_err(),
        SimError::InvalidParameter
    );
    assert_eq!(
        RandomBacktester::run(&bars, &inv).unwrap_err(),
        SimError::InvalidParameter
    );
    let empty: Vec<Bar> = Vec::new();
    assert_eq!(
        SignalBacktester::run(&empty, &inv).unwrap_err(),
        SimError::InvalidParameter
    );
}

#[test]
fn zero_investment_holds_nothing_and_banks_nothing() {
    let bars = vec![bar(1, 10, 12), bar(2, 11, 9), bar(3, 13, 13)];
    let inv = Rat::from_int(0);
    let (profits, _) = SignalBacktester::run(&bars, &inv).unwrap();
    for p in &profits {
        assert_val(p, 0, 1);
    }
}

#[test]
fn zero_open_price_ignores_the_buy() {
    // The buy signal arrives at a bar whose open is zero: the engine's
    // explicit rule skips it, and the later sell signal finds nothing held.
    let bars = vec![bar(1, 10, 12), bar(2, 0, 0), bar(3, 25, 10), bar(4, 30, 30)];
    let inv = Rat::from_int(1000);
    let (profits, disps) = SignalBacktester::run(&bars, &inv).unwrap();
    for p in &profits {
        assert_val(p, 0, 1);
    }
    for d in &disps {
        assert_val(d, 0, 1);
    }
}

#[test]
fn overflowing_sale_reports_overflow() {
    // shares = i64::MAX after the buy at open 1; the sale at open 3 would
    // need pnl = i64::MAX * 2, which no i64 pair can represent.
    let bars = vec![bar(1, 1, 2), bar(2, 1, 0), bar(3, 3, 3)];
    let inv = Rat::from_int(i64::MAX);
    assert_eq!(
        SignalBacktester::run(&bars, &inv).unwrap_err(),
        SimError::Overflow
    );
}

#[test]
fn position_tracker_round_trip() {
    let mut pos = Position::new();
    assert!(pos.is_flat());
    pos.enter_at(Rat::from_int(50), Rat::from_int(10));
    assert!(!pos.is_flat());
    let pnl = pos.pnl_at(&Rat::from_int(12)).unwrap();
    assert_val(&pnl, 100, 1);
    pos.clear();
    assert!(pos.is_flat());
}

#[test]
fn generator_length_one_is_single_zero() {
    let increments: Vec<Rat> = Vec::new();
    let path = PriceSeriesGenerator::cumulative_path(&increments).unwrap();
    assert_eq!(path.len(), 1);
    assert_val(&path[0], 0, 1);
}

#[test]
fn generator_path_is_running_sum() {
    let increments = vec![Rat::new(1, 2), Rat::new(-3, 4), Rat::from_int(2)];
    let path = PriceSeriesGenerator::cumulative_path(&increments).unwrap();
    assert_eq!(path.len(), 4);
    assert_val(&path[0], 0, 1);
    assert_val(&path[1], 1, 2);
    assert_val(&path[2], -1, 4);
    assert_val(&path[3], 7, 4);
}

#[test]
fn generator_overflowing_sum_reports_overflow() {
    let increments = vec![Rat::from_int(i64::MAX), Rat::from_int(i64::MAX)];
    assert_eq!(
        PriceSeriesGenerator::cumulative_path(&increments).unwrap_err(),
        SimError::Overflow
    );
}

#[test]
fn generator_rejects_non_positive_spread() {
    assert_eq!(
        PriceSeriesGenerator::validate_params(10, &Rat::from_int(0)).unwrap_err(),
        SimError::InvalidParameter
    );
    assert_eq!(
        PriceSeriesGenerator::validate_params(10, &Rat::from_int(-1)).unwrap_err(),
        SimError::InvalidParameter
    );
    assert!(PriceSeriesGenerator::validate_params(10, &Rat::new(1, 100)).is_ok());
}

#[test]
fn generator_rejects_zero_length() {
    assert_eq!(
        PriceSeriesGenerator::validate_params(0, &Rat::from_int(1)).unwrap_err(),
        SimError::InvalidParameter
    );
}

#[test]
fn rational_value_equality_ignores_representation() {
    assert!(Rat::new(1, 2).eq_value(&Rat::new(2, 4)));
    assert!(!Rat::new(1, 2).eq_value(&Rat::new(2, 3)));
    assert!(Rat::new(-6, 4).eq_value(&Rat::new(-3, 2)));
}

#[test]
fn rational_checked_ops_are_exact() {
    let a = Rat::new(1, 3);
    let b = Rat::new(1, 6);
    assert!(a.checked_add(&b).unwrap().eq_value(&Rat::new(1, 2)));
    assert!(a.checked_sub(&b).unwrap().eq_value(&Rat::new(1, 6)));
    assert!(a.checked_mul(&b).unwrap().eq_value(&Rat::new(1, 18)));
    assert!(a.checked_div(&b).unwrap().eq_value(&Rat::from_int(2)));
    assert!(a.checked_div(&Rat::new(-1, 6)).unwrap().eq_value(&Rat::from_int(-2)));
    assert!(Rat::from_int(i64::MAX).checked_add(&Rat::from_int(1)).is_none());
    assert!(a.lt(&Rat::new(1, 2)));
    assert!(!Rat::new(1, 2).lt(&a));
}
