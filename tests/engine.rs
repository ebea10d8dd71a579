use backtest_engine::{
    plan_bar, simulated_bar_count, warmup_bars, BarAction, BarState, SignalInputs,
};

fn inputs() -> SignalInputs {
    SignalInputs {
        has_position: false,
        has_hedge: false,
        short_enabled: true,
        rsi_at_or_above_overbought: false,
        stop_price_reached: false,
        rsi_at_or_below_oversold_short: false,
        rsi_at_or_above_overbought_short: false,
        rsi_at_or_below_oversold: false,
        vwap_filter_active: false,
        vwap_known: false,
        close_below_vwap: false,
        sma_known: false,
        close_at_or_above_sma: false,
        bb_filter_enabled: false,
        bb_lower_positive: false,
        close_at_or_below_bb_lower: false,
    }
}

fn state(signal: SignalInputs) -> BarState {
    BarState { signal, stop_triggered: false, has_latency: false, has_hedge_bar: true }
}

#[test]
fn warmup_is_the_longer_period() {
    assert_eq!(warmup_bars(20, 20), 20);
    assert_eq!(warmup_bars(3, 5), 5);
    assert_eq!(warmup_bars(30, 5), 30);
}

#[test]
fn flat_series_curve_length() {
    // 100 bars with the default periods: 80 equity points.
    assert_eq!(simulated_bar_count(100, warmup_bars(20, 20)), Some(80));
}

#[test]
fn insufficient_bars_give_empty_run() {
    assert_eq!(simulated_bar_count(5, 20), None);
    assert_eq!(simulated_bar_count(20, 20), None);
    assert_eq!(simulated_bar_count(21, 20), Some(1));
    assert_eq!(simulated_bar_count(0, 0), None);
}

#[test]
fn stop_loss_precheck_skips_signal() {
    let s = SignalInputs { has_position: true, rsi_at_or_above_overbought: true, ..inputs() };
    let b = BarState { stop_triggered: true, ..state(s) };
    assert_eq!(plan_bar(&b), BarAction::StopLossExit);
    assert_eq!(plan_bar(&state(s)), BarAction::Sell { stop_loss: false });
    // Without a position the predicate is not consulted.
    let b = BarState { stop_triggered: true, ..state(inputs()) };
    assert_eq!(plan_bar(&b), BarAction::Idle);
}

#[test]
fn entries_queue_under_latency_exits_do_not() {
    let buy = SignalInputs { rsi_at_or_below_oversold: true, ..inputs() };
    assert_eq!(plan_bar(&state(buy)), BarAction::BuyNow);
    assert_eq!(plan_bar(&BarState { has_latency: true, ..state(buy) }), BarAction::QueueBuy);

    let sell = SignalInputs { has_position: true, stop_price_reached: true, ..inputs() };
    assert_eq!(
        plan_bar(&BarState { has_latency: true, ..state(sell) }),
        BarAction::Sell { stop_loss: true }
    );

    let hedge = SignalInputs { rsi_at_or_above_overbought_short: true, ..inputs() };
    assert_eq!(plan_bar(&state(hedge)), BarAction::HedgeBuyNow);
    assert_eq!(plan_bar(&BarState { has_latency: true, ..state(hedge) }), BarAction::QueueHedgeBuy);
    assert_eq!(plan_bar(&BarState { has_hedge_bar: false, ..state(hedge) }), BarAction::Idle);

    let unhedge = SignalInputs { has_hedge: true, rsi_at_or_below_oversold_short: true, ..inputs() };
    assert_eq!(plan_bar(&BarState { has_latency: true, ..state(unhedge) }), BarAction::HedgeSell);
}
