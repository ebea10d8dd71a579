use vstd::prelude::*;
use crate::types::SignalType;

verus! {

/// What the strategy sees at one bar, reduced to the comparisons it decides on.
///
/// Each flag is the outcome of one comparison between the bar, its indicator
/// snapshot and the strategy's thresholds.
#[derive(Debug, Clone, Copy, PartialEq, Eq, Structural)]
pub struct SignalInputs {
    /// A long (primary) position is open.
    pub has_position: bool,
    /// A hedge position is open.
    pub has_hedge: bool,
    /// Hedging on the inverse instrument is allowed.
    pub short_enabled: bool,
    /// `rsi >= rsi_overbought`.
    pub rsi_at_or_above_overbought: bool,
    /// The open position has a stop price and `close <= stop`.
    pub stop_price_reached: bool,
    /// `rsi <= rsi_oversold_short`.
    pub rsi_at_or_below_oversold_short: bool,
    /// `rsi >= rsi_overbought_short`.
    pub rsi_at_or_above_overbought_short: bool,
    /// `rsi <= rsi_oversold`.
    pub rsi_at_or_below_oversold: bool,
    /// The VWAP filter is on and asks for entries below VWAP.
    pub vwap_filter_active: bool,
    /// A VWAP is known for the bar (from the indicators or from the bar itself).
    pub vwap_known: bool,
    /// `close < vwap`.
    pub close_below_vwap: bool,
    /// The SMA is defined at this bar.
    pub sma_known: bool,
    /// `close >= sma`.
    pub close_at_or_above_sma: bool,
    /// The Bollinger filter is on.
    pub bb_filter_enabled: bool,
    /// The lower Bollinger band is positive (out of warm-up).
    pub bb_lower_positive: bool,
    /// `close <= lower band`.
    pub close_at_or_below_bb_lower: bool,
}

/// The strategy's verdict for one bar.
#[derive(Debug, Clone, Copy, PartialEq, Eq, Structural)]
pub enum Decision {
    Hold,
    /// Long entry on an oversold RSI.
    Buy,
    /// Long exit on an overbought RSI.
    TakeProfit,
    /// Long exit because the close reached the stop price.
    StopLoss,
    /// Hedge entry on an extremely overbought RSI.
    HedgeBuy,
    /// Hedge exit once the RSI has cooled down.
    HedgeSell,
}

/// All enabled entry filters pass.
pub open spec fn entry_filters_pass(s: SignalInputs) -> bool {
    &&& (s.vwap_filter_active && s.vwap_known ==> s.close_below_vwap)
    &&& (s.sma_known ==> s.close_at_or_above_sma)
    &&& (s.bb_filter_enabled && s.bb_lower_positive ==> s.close_at_or_below_bb_lower)
}

/// The strategy's rules, first match wins: long exit (take profit before stop
/// loss), hedge exit, hedge entry, long entry, otherwise hold.
pub open spec fn decision_of(s: SignalInputs) -> Decision {
    if s.has_position && s.rsi_at_or_above_overbought {
        Decision::TakeProfit
    } else if s.has_position && s.stop_price_reached {
        Decision::StopLoss
    } else if s.short_enabled && s.has_hedge && s.rsi_at_or_below_oversold_short {
        Decision::HedgeSell
    } else if s.short_enabled && !s.has_hedge && !s.has_position
        && s.rsi_at_or_above_overbought_short {
        Decision::HedgeBuy
    } else if !s.has_position && s.rsi_at_or_below_oversold && entry_filters_pass(s) {
        Decision::Buy
    } else {
        Decision::Hold
    }
}

pub open spec fn signal_type_of(d: Decision) -> SignalType {
    match d {
        Decision::Hold => SignalType::Hold,
        Decision::Buy => SignalType::Buy,
        Decision::TakeProfit => SignalType::Sell,
        Decision::StopLoss => SignalType::Sell,
        Decision::HedgeBuy => SignalType::HedgeBuy,
        Decision::HedgeSell => SignalType::HedgeSell,
    }
}

impl Decision {
    /// The signal kind of this verdict; both long exits are `Sell`.
    pub fn signal_type(&self) -> (r: SignalType)
        ensures
            r == signal_type_of(*self),
    {
        match self {
            Decision::Hold => SignalType::Hold,
            Decision::Buy => SignalType::Buy,
            Decision::TakeProfit => SignalType::Sell,
            Decision::StopLoss => SignalType::Sell,
            Decision::HedgeBuy => SignalType::HedgeBuy,
            Decision::HedgeSell => SignalType::HedgeSell,
        }
    }
}

/// Whether the entry filters (VWAP, SMA trend, Bollinger) let a long entry through.
pub fn check_entry_filters(s: &SignalInputs) -> (r: bool)
    ensures
        r == entry_filters_pass(*s),
{
    if s.vwap_filter_active && s.vwap_known && !s.close_below_vwap {
        return false;
    }
    if s.sma_known && !s.close_at_or_above_sma {
        return false;
    }
    if s.bb_filter_enabled && s.bb_lower_positive && !s.close_at_or_below_bb_lower {
        return false;
    }
    true
}

/// Decides the bar's signal by the strategy's precedence.
pub fn decide(s: &SignalInputs) -> (r: Decision)
    ensures
        r == decision_of(*s),
        r is Buy ==> !s.has_position && s.rsi_at_or_below_oversold,
        (r is TakeProfit || r is StopLoss) ==> s.has_position,
        r is HedgeBuy ==> !s.has_position && !s.has_hedge && s.short_enabled,
        r is HedgeSell ==> s.has_hedge && s.short_enabled,
{
    if s.has_position {
        if s.rsi_at_or_above_overbought {
            return Decision::TakeProfit;
        }
        if s.stop_price_reached {
            return Decision::StopLoss;
        }
    }
    if s.short_enabled {
        if s.has_hedge {
            if s.rsi_at_or_below_oversold_short {
                return Decision::HedgeSell;
            }
        } else if !s.has_position && s.rsi_at_or_above_overbought_short {
            return Decision::HedgeBuy;
        }
    }
    if !s.has_position && s.rsi_at_or_below_oversold && check_entry_filters(s) {
        return Decision::Buy;
    }
    Decision::Hold
}

} // verus!
