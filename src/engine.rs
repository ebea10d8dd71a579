use vstd::prelude::*;
use crate::signals::{decide, decision_of, Decision, SignalInputs};

verus! {

/// Bars consumed by indicator warm-up before the first simulated bar.
pub open spec fn warmup_of(sma_period: usize, bb_period: usize) -> int {
    if sma_period >= bb_period {
        sma_period as int
    } else {
        bb_period as int
    }
}

/// `max(sma_period, bb_period)`.
pub fn warmup_bars(sma_period: usize, bb_period: usize) -> (r: usize)
    ensures
        r == warmup_of(sma_period, bb_period),
{
    if sma_period >= bb_period {
        sma_period
    } else {
        bb_period
    }
}

/// Number of bars the simulation steps through, hence of equity-curve
/// points: `None` when there are fewer than `warmup + 1` bars (the result is
/// then empty), else `bar_count - warmup`.
pub fn simulated_bar_count(bar_count: usize, warmup: usize) -> (r: Option<usize>)
    ensures
        r is None <==> bar_count < warmup + 1,
        r matches Some(n) ==> n == bar_count - warmup && n >= 1,
{
    if bar_count <= warmup {
        None
    } else {
        Some(bar_count - warmup)
    }
}

/// What the engine observes at a bar before acting.
#[derive(Debug, Clone, Copy, PartialEq, Eq, Structural)]
pub struct BarState {
    /// The strategy's view of the bar.
    pub signal: SignalInputs,
    /// The portfolio's stop-loss predicate holds at the bar's close.
    pub stop_triggered: bool,
    /// Entries are queued for latency instead of executed at once.
    pub has_latency: bool,
    /// A bar of the inverse instrument exists at this index.
    pub has_hedge_bar: bool,
}

/// What the engine does at a bar, after draining due orders and before marking.
#[derive(Debug, Clone, Copy, PartialEq, Eq, Structural)]
pub enum BarAction {
    Idle,
    /// Stop-loss pre-check fired: close the long now; no signal is generated.
    StopLossExit,
    /// Queue a long entry for later bars.
    QueueBuy,
    /// Buy at this bar.
    BuyNow,
    /// Close the long at this bar on a signal; `stop_loss` tells which exit rule fired.
    Sell { stop_loss: bool },
    /// Queue a hedge entry for later bars.
    QueueHedgeBuy,
    /// Buy the hedge at this bar.
    HedgeBuyNow,
    /// Close the hedge at this bar.
    HedgeSell,
}

/// Stop-loss pre-check first, then the signal: entries are queued under
/// latency, exits always run in the same bar, hedge orders need a hedge bar.
pub open spec fn action_of(b: BarState) -> BarAction {
    if b.signal.has_position && b.stop_triggered {
        BarAction::StopLossExit
    } else {
        match decision_of(b.signal) {
            Decision::Hold => BarAction::Idle,
            Decision::Buy => if b.has_latency {
                BarAction::QueueBuy
            } else {
                BarAction::BuyNow
            },
            Decision::TakeProfit => BarAction::Sell { stop_loss: false },
            Decision::StopLoss => BarAction::Sell { stop_loss: true },
            Decision::HedgeBuy => if !b.has_hedge_bar {
                BarAction::Idle
            } else if b.has_latency {
                BarAction::QueueHedgeBuy
            } else {
                BarAction::HedgeBuyNow
            },
            Decision::HedgeSell => if b.has_hedge_bar {
                BarAction::HedgeSell
            } else {
                BarAction::Idle
            },
        }
    }
}

/// Plans the bar's action.
pub fn plan_bar(b: &BarState) -> (r: BarAction)
    ensures
        r == action_of(*b),
        (r is QueueBuy || r is QueueHedgeBuy) ==> b.has_latency,
        (r is StopLossExit || r is Sell) ==> b.signal.has_position,
{
    if b.signal.has_position && b.stop_triggered {
        return BarAction::StopLossExit;
    }
    match decide(&b.signal) {
        Decision::Hold => BarAction::Idle,
        Decision::Buy => {
            if b.has_latency {
                BarAction::QueueBuy
            } else {
                BarAction::BuyNow
            }
        },
        Decision::TakeProfit => BarAction::Sell { stop_loss: false },
        Decision::StopLoss => BarAction::Sell { stop_loss: true },
        Decision::HedgeBuy => {
            if !b.has_hedge_bar {
                BarAction::Idle
            } else if b.has_latency {
                BarAction::QueueHedgeBuy
            } else {
                BarAction::HedgeBuyNow
            }
        },
        Decision::HedgeSell => {
            if b.has_hedge_bar {
                BarAction::HedgeSell
            } else {
                BarAction::Idle
            }
        },
    }
}

/// Exits are never delayed: when the strategy decides a long exit, or the
/// stop-loss pre-check fires, the long is closed in the same bar whatever the
/// latency; only entries are ever queued.
pub proof fn lemma_exits_run_in_bar(b: BarState)
    ensures
        (b.signal.has_position && (b.stop_triggered || decision_of(b.signal) is TakeProfit
            || decision_of(b.signal) is StopLoss)) ==> (action_of(b) is StopLossExit
            || action_of(b) is Sell),
        (action_of(b) is QueueBuy) ==> decision_of(b.signal) is Buy && b.has_latency,
        (action_of(b) is QueueHedgeBuy) ==> decision_of(b.signal) is HedgeBuy && b.has_latency,
{
}

} // verus!
