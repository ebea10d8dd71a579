use vstd::prelude::*;

verus! {

/// Seconds in a day.
pub const SECS_PER_DAY: i128 = 86400;

/// Refusals of the ledger.
#[derive(Debug, Clone, Copy, PartialEq, Eq, Structural)]
pub enum LedgerError {
    /// The slot the position would go into is already taken.
    PositionAlreadyExists,
}

/// Position slots and trade log of a portfolio: at most one long/short
/// position and at most one hedge position, and a log of closed trades that
/// only ever grows at its end (every method leaves the old log as a prefix of
/// the new one).
#[derive(Debug)]
pub struct Ledger<P, T> {
    position: Option<P>,
    hedge_position: Option<P>,
    trades: Vec<T>,
}

impl<P, T> Ledger<P, T> {
    /// The long/short slot.
    pub closed spec fn main_slot(&self) -> Option<P> {
        self.position
    }

    /// The hedge slot.
    pub closed spec fn hedge_slot(&self) -> Option<P> {
        self.hedge_position
    }

    /// The slot that `hedge` selects.
    pub open spec fn slot(&self, hedge: bool) -> Option<P> {
        if hedge {
            self.hedge_slot()
        } else {
            self.main_slot()
        }
    }

    /// Closed trades, oldest first.
    pub closed spec fn trade_log(&self) -> Seq<T> {
        self.trades@
    }

    /// No open position and an empty log.
    pub fn new() -> (r: Self)
        ensures
            r.main_slot() is None,
            r.hedge_slot() is None,
            r.trade_log() == Seq::<T>::empty(),
    {
        Ledger { position: None, hedge_position: None, trades: Vec::new() }
    }

    pub fn has_position(&self) -> (r: bool)
        ensures
            r == self.main_slot() is Some,
    {
        self.position.is_some()
    }

    pub fn has_hedge_position(&self) -> (r: bool)
        ensures
            r == self.hedge_slot() is Some,
    {
        self.hedge_position.is_some()
    }

    pub fn current_position(&self) -> (r: Option<&P>)
        ensures
            r is None <==> self.main_slot() is None,
            r matches Some(p) ==> self.main_slot() == Some(*p),
    {
        match &self.position {
            Some(p) => Some(p),
            None => None,
        }
    }

    pub fn current_hedge_position(&self) -> (r: Option<&P>)
        ensures
            r is None <==> self.hedge_slot() is None,
            r matches Some(p) ==> self.hedge_slot() == Some(*p),
    {
        match &self.hedge_position {
            Some(p) => Some(p),
            None => None,
        }
    }

    pub fn trades(&self) -> (r: &[T])
        ensures
            r@ == self.trade_log(),
    {
        self.trades.as_slice()
    }

    /// Puts `p` into the slot that `hedge` selects, unless that slot is taken.
    pub fn open(&mut self, hedge: bool, p: P) -> (r: Result<(), LedgerError>)
        ensures
            old(self).slot(hedge) is Some ==> r == Err::<(), LedgerError>(
                LedgerError::PositionAlreadyExists,
            ) && final(self).slot(hedge) == old(self).slot(hedge),
            old(self).slot(hedge) is None ==> r is Ok && final(self).slot(hedge) == Some(p),
            final(self).slot(!hedge) == old(self).slot(!hedge),
            final(self).trade_log() == old(self).trade_log(),
            old(self).trade_log().is_prefix_of(final(self).trade_log()),
    {
        if hedge {
            if self.hedge_position.is_some() {
                return Err(LedgerError::PositionAlreadyExists);
            }
            self.hedge_position = Some(p);
        } else {
            if self.position.is_some() {
                return Err(LedgerError::PositionAlreadyExists);
            }
            self.position = Some(p);
        }
        Ok(())
    }

    /// Puts `p` in place of the position in the selected slot, if there is one,
    /// and returns the one it replaced; an empty slot stays empty.
    pub fn replace_position(&mut self, hedge: bool, p: P) -> (r: Option<P>)
        ensures
            r == old(self).slot(hedge),
            old(self).slot(hedge) is Some ==> final(self).slot(hedge) == Some(p),
            old(self).slot(hedge) is None ==> final(self).slot(hedge) is None,
            final(self).slot(!hedge) == old(self).slot(!hedge),
            final(self).trade_log() == old(self).trade_log(),
            old(self).trade_log().is_prefix_of(final(self).trade_log()),
    {
        if hedge {
            match self.hedge_position.take() {
                Some(q) => {
                    self.hedge_position = Some(p);
                    Some(q)
                },
                None => None,
            }
        } else {
            match self.position.take() {
                Some(q) => {
                    self.position = Some(p);
                    Some(q)
                },
                None => None,
            }
        }
    }

    /// Empties the selected slot and hands back what it held.
    pub fn take_position(&mut self, hedge: bool) -> (r: Option<P>)
        ensures
            r == old(self).slot(hedge),
            final(self).slot(hedge) is None,
            final(self).slot(!hedge) == old(self).slot(!hedge),
            final(self).trade_log() == old(self).trade_log(),
            old(self).trade_log().is_prefix_of(final(self).trade_log()),
    {
        if hedge {
            self.hedge_position.take()
        } else {
            self.position.take()
        }
    }

    /// Appends a closed trade to the log.
    pub fn record_trade(&mut self, t: T)
        ensures
            final(self).trade_log() == old(self).trade_log().push(t),
            old(self).trade_log().is_prefix_of(final(self).trade_log()),
            final(self).main_slot() == old(self).main_slot(),
            final(self).hedge_slot() == old(self).hedge_slot(),
    {
        self.trades.push(t);
        assert(old(self).trade_log() =~= self.trade_log().subrange(0, old(self).trade_log().len() as int));
    }
}

/// Whole days between two instants given in seconds, truncated toward zero.
pub open spec fn holding_days_of(entry_secs: i64, exit_secs: i64) -> int {
    let d = exit_secs - entry_secs;
    if d >= 0 {
        d / SECS_PER_DAY as int
    } else {
        -((-d) / SECS_PER_DAY as int)
    }
}

/// Length of a holding in whole days (truncated toward zero), from entry and
/// exit instants in seconds since the Unix epoch.
pub fn holding_days(entry_secs: i64, exit_secs: i64) -> (r: i64)
    ensures
        r == holding_days_of(entry_secs, exit_secs),
{
    let d: i128 = exit_secs as i128 - entry_secs as i128;
    if d >= 0 {
        (d / SECS_PER_DAY) as i64
    } else {
        let q: i128 = (-d) / SECS_PER_DAY;
        -(q as i64)
    }
}

} // verus!
