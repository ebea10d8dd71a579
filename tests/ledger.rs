use backtest_engine::{holding_days, Ledger, LedgerError, MetricsCalculator, PositionSide, Side};

#[test]
fn ledger_slots_and_log() {
    let mut l: Ledger<u32, i64> = Ledger::new();
    assert!(!l.has_position());
    assert_eq!(l.open(false, 7), Ok(()));
    assert_eq!(l.open(false, 8), Err(LedgerError::PositionAlreadyExists));
    assert_eq!(l.current_position(), Some(&7));
    assert!(!l.has_hedge_position());
    assert_eq!(l.open(true, 9), Ok(()));
    assert_eq!(l.current_hedge_position(), Some(&9));

    assert_eq!(l.replace_position(false, 70), Some(7));
    assert_eq!(l.take_position(false), Some(70));
    assert_eq!(l.take_position(false), None);
    assert_eq!(l.replace_position(false, 1), None);
    assert!(!l.has_position());

    l.record_trade(500);
    l.record_trade(-20);
    assert_eq!(l.trades(), &[500, -20]);
    assert_eq!(l.take_position(true), Some(9));
    assert_eq!(l.trades().len(), 2);
}

#[test]
fn holding_days_truncate() {
    let day = 86_400;
    let t0 = 1_704_067_200; // 2024-01-01T00:00:00Z
    assert_eq!(holding_days(t0, t0), 0);
    assert_eq!(holding_days(t0, t0 + day - 1), 0);
    assert_eq!(holding_days(t0, t0 + 3 * day + 5), 3);
    assert_eq!(holding_days(t0 + 3 * day + 5, t0), -3);
    assert_eq!(holding_days(i64::MIN, i64::MAX), (u64::MAX / 86_400) as i64);
}

#[test]
fn exit_sides_and_stop_rule() {
    assert_eq!(PositionSide::Long.exit_side(), Side::Sell);
    assert_eq!(PositionSide::Short.exit_side(), Side::Cover);
    assert_eq!(PositionSide::Hedge.exit_side(), Side::HedgeSell);
    assert!(PositionSide::Hedge.is_hedge());
    assert!(!PositionSide::Long.is_hedge());

    // Long with stop 47.5: 48 does not trigger, 47 does.
    assert!(!PositionSide::Long.stop_triggered(48.0 <= 47.5, 48.0 >= 47.5));
    assert!(PositionSide::Long.stop_triggered(47.0 <= 47.5, 47.0 >= 47.5));
    assert!(PositionSide::Short.stop_triggered(false, true));
    assert!(!PositionSide::Hedge.stop_triggered(true, true));
}

#[test]
fn holding_day_sums() {
    let days = vec![0, 3, -1, 5];
    assert_eq!(MetricsCalculator::total_holding_days(&days), 7);
    assert_eq!(MetricsCalculator::invested_days(&days), 1 + 3 + 1 + 5);
    assert_eq!(MetricsCalculator::invested_days(&vec![]), 0);
    assert_eq!(MetricsCalculator::total_holding_days(&vec![i64::MAX, i64::MAX]), 2 * i64::MAX as i128);
}
