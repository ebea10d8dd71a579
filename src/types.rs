use vstd::prelude::*;

verus! {

/// Side of an order or of a completed trade.
#[derive(Debug, Clone, Copy, PartialEq, Eq, Structural)]
pub enum Side {
    Buy,
    Sell,
    Short,
    Cover,
    HedgeBuy,
    HedgeSell,
}

/// Kind of signal produced for a bar.
#[derive(Debug, Clone, Copy, PartialEq, Eq, Structural)]
pub enum SignalType {
    Buy,
    Sell,
    Short,
    Cover,
    HedgeBuy,
    HedgeSell,
    Hold,
}

/// Side of an open position.
#[derive(Debug, Clone, Copy, PartialEq, Eq, Structural)]
pub enum PositionSide {
    Long,
    Short,
    Hedge,
}

/// Orders that take liquidity from the ask: they pay more under adverse
/// slippage, spread and market impact.
pub open spec fn pays_ask(side: Side) -> bool {
    side is Buy || side is HedgeBuy || side is Cover
}

impl Side {
    /// True for sides that buy (`Buy`, `HedgeBuy`, `Cover`), false for sides that sell.
    pub fn is_buy_side(&self) -> (r: bool)
        ensures
            r == pays_ask(*self),
    {
        match self {
            Side::Buy | Side::HedgeBuy | Side::Cover => true,
            Side::Sell | Side::HedgeSell | Side::Short => false,
        }
    }

    /// Direction in which an adverse price adjustment moves the fill:
    /// `1` for buying sides (pay more), `-1` for selling sides (receive less).
    pub fn adverse_direction(&self) -> (r: i8)
        ensures
            pays_ask(*self) ==> r == 1,
            !pays_ask(*self) ==> r == -1,
    {
        if self.is_buy_side() {
            1
        } else {
            -1
        }
    }
}

/// The side recorded on the trade that closes a position of the given side.
pub open spec fn exit_side_of(side: PositionSide) -> Side {
    match side {
        PositionSide::Long => Side::Sell,
        PositionSide::Short => Side::Cover,
        PositionSide::Hedge => Side::HedgeSell,
    }
}

/// When the stop price closes a position of the given side.
pub open spec fn stop_rule(side: PositionSide, at_or_below: bool, at_or_above: bool) -> bool {
    match side {
        PositionSide::Long => at_or_below,
        PositionSide::Short => at_or_above,
        PositionSide::Hedge => false,
    }
}

impl PositionSide {
    /// Closing side: `Long` closes with `Sell`, `Short` with `Cover`, `Hedge` with `HedgeSell`.
    pub fn exit_side(&self) -> (r: Side)
        ensures
            r == exit_side_of(*self),
    {
        match self {
            PositionSide::Long => Side::Sell,
            PositionSide::Short => Side::Cover,
            PositionSide::Hedge => Side::HedgeSell,
        }
    }

    /// Stop-loss predicate: a long stops out when the price is at or below its
    /// stop, a short when it is at or above; a hedge never does here.
    pub fn stop_triggered(&self, price_at_or_below_stop: bool, price_at_or_above_stop: bool) -> (r:
        bool)
        ensures
            r == stop_rule(*self, price_at_or_below_stop, price_at_or_above_stop),
    {
        match self {
            PositionSide::Long => price_at_or_below_stop,
            PositionSide::Short => price_at_or_above_stop,
            PositionSide::Hedge => false,
        }
    }

    /// Whether a position of this side lives in the hedge slot of a portfolio.
    pub fn is_hedge(&self) -> (r: bool)
        ensures
            r == (*self is Hedge),
    {
        match self {
            PositionSide::Hedge => true,
            _ => false,
        }
    }
}

} // verus!
