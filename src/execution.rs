use vstd::prelude::*;
use crate::types::Side;

verus! {

/// An entry order held back for latency, in whole shares.
#[derive(Debug, Clone)]
pub struct PendingOrder {
    pub symbol: String,
    pub side: Side,
    pub quantity: u64,
    pub signal_bar_index: usize,
    pub execute_at_bar_index: usize,
}

/// An order is released at bar `i` once its target bar has been reached.
pub open spec fn released_at(i: int) -> spec_fn(PendingOrder) -> bool {
    |o: PendingOrder| o.execute_at_bar_index <= i
}

/// An order stays queued at bar `i` while its target bar lies ahead.
pub open spec fn held_at(i: int) -> spec_fn(PendingOrder) -> bool {
    |o: PendingOrder| o.execute_at_bar_index > i
}

/// The order was signalled at bar `k` and waits `latency` bars.
pub open spec fn queued_at(o: PendingOrder, k: int, latency: int) -> bool {
    o.signal_bar_index == k && o.execute_at_bar_index == k + latency
}

/// Queue of entry orders delayed by a fixed number of bars.
pub struct OrderQueue {
    enabled: bool,
    latency_bars: usize,
    pending_orders: Vec<PendingOrder>,
}

impl OrderQueue {
    /// Orders waiting, oldest first.
    pub closed spec fn pending(&self) -> Seq<PendingOrder> {
        self.pending_orders@
    }

    /// Number of bars between an order's signal and its execution.
    pub closed spec fn latency(&self) -> nat {
        self.latency_bars as nat
    }

    /// Whether realistic execution, and so latency, is switched on.
    pub closed spec fn active(&self) -> bool {
        self.enabled
    }

    /// Every waiting order targets its signal bar plus the latency.
    pub open spec fn wf(&self) -> bool {
        forall|j: int|
            0 <= j < self.pending().len() ==> queued_at(
                #[trigger] self.pending()[j],
                self.pending()[j].signal_bar_index as int,
                self.latency() as int,
            )
    }

    /// An empty queue for the given switch and latency.
    pub fn new(enabled: bool, latency_bars: usize) -> (r: OrderQueue)
        ensures
            r.wf(),
            r.pending() == Seq::<PendingOrder>::empty(),
            r.latency() == latency_bars as nat,
            r.active() == enabled,
    {
        OrderQueue { enabled, latency_bars, pending_orders: Vec::new() }
    }

    pub fn latency_bars(&self) -> (r: usize)
        ensures
            r as nat == self.latency(),
    {
        self.latency_bars
    }

    /// Entries are delayed only when execution is realistic and the latency is positive.
    pub fn has_latency(&self) -> (r: bool)
        ensures
            r == (self.active() && self.latency() > 0),
    {
        self.enabled && self.latency_bars > 0
    }

    pub fn pending_order_count(&self) -> (r: usize)
        ensures
            r == self.pending().len(),
    {
        self.pending_orders.len()
    }

    /// Appends an order signalled at `current_bar_index`, to run `latency` bars later.
    pub fn queue_order(&mut self, symbol: String, side: Side, quantity: u64, current_bar_index: usize)
        requires
            old(self).wf(),
            current_bar_index + old(self).latency() <= usize::MAX,
        ensures
            final(self).wf(),
            final(self).latency() == old(self).latency(),
            final(self).active() == old(self).active(),
            final(self).pending().len() == old(self).pending().len() + 1,
            final(self).pending().drop_last() == old(self).pending(),
            final(self).pending().last().symbol == symbol,
            final(self).pending().last().side == side,
            final(self).pending().last().quantity == quantity,
            queued_at(
                final(self).pending().last(),
                current_bar_index as int,
                old(self).latency() as int,
            ),
    {
        let execute_at = current_bar_index + self.latency_bars;
        self.pending_orders.push(
            PendingOrder {
                symbol,
                side,
                quantity,
                signal_bar_index: current_bar_index,
                execute_at_bar_index: execute_at,
            },
        );
        assert(self.pending().drop_last() =~= old(self).pending());
    }

    /// Removes and returns, in queue order, every order due at or before
    /// `current_bar_index`; the others stay queued in their order.
    pub fn get_executable_orders(&mut self, current_bar_index: usize) -> (r: Vec<PendingOrder>)
        requires
            old(self).wf(),
        ensures
            final(self).wf(),
            final(self).latency() == old(self).latency(),
            final(self).active() == old(self).active(),
            r@ == old(self).pending().filter(released_at(current_bar_index as int)),
            final(self).pending() == old(self).pending().filter(held_at(current_bar_index as int)),
    {
        let ghost orig = self.pending();
        let ghost i = current_bar_index as int;
        let mut rest: Vec<PendingOrder> = Vec::new();
        core::mem::swap(&mut rest, &mut self.pending_orders);
        let mut ready: Vec<PendingOrder> = Vec::new();
        let mut held: Vec<PendingOrder> = Vec::new();
        let ghost mut k: int = 0;
        while rest.len() > 0
            invariant
                0 <= k <= orig.len(),
                rest@ == orig.skip(k),
                ready@ == orig.take(k).filter(released_at(i)),
                held@ == orig.take(k).filter(held_at(i)),
                i == current_bar_index as int,
            decreases rest.len(),
        {
            let o = rest.remove(0);
            proof {
                assert(orig.take(k + 1).drop_last() =~= orig.take(k));
                assert(orig.take(k + 1).last() == o);
                reveal(Seq::filter);
            }
            if o.execute_at_bar_index <= current_bar_index {
                ready.push(o);
            } else {
                held.push(o);
            }
            proof {
                k = k + 1;
                assert(rest@ =~= orig.skip(k));
            }
        }
        proof {
            assert(orig.take(k) =~= orig);
            held@.lemma_filter_len(held_at(i));
            assert forall|j: int| 0 <= j < held@.len() implies queued_at(
                #[trigger] held@[j],
                held@[j].signal_bar_index as int,
                self.latency() as int,
            ) by {
                orig.lemma_filter_contains_rev(held_at(i), held@[j]);
            }
        }
        self.pending_orders = held;
        ready
    }

    /// Drops every waiting order.
    pub fn clear_pending_orders(&mut self)
        ensures
            final(self).wf(),
            final(self).pending() == Seq::<PendingOrder>::empty(),
            final(self).latency() == old(self).latency(),
            final(self).active() == old(self).active(),
    {
        self.pending_orders.clear();
    }
}

/// With a one-bar latency, an order queued at bar `k` is still held at bar
/// `k` and is released at bar `k + 1`.
pub proof fn lemma_one_bar_latency(o: PendingOrder, k: int)
    requires
        queued_at(o, k, 1),
    ensures
        !released_at(k)(o),
        held_at(k)(o),
        released_at(k + 1)(o),
        !held_at(k + 1)(o),
{
}

/// Why an order was filled for less than requested.
#[derive(Debug, Clone, Copy, PartialEq, Eq, Structural)]
pub enum FillNote {
    /// Filled in full.
    Complete,
    /// Filled up to the volume cap.
    PartialFill,
    /// Refused: the request exceeds the volume cap and partial fills are off.
    ExceedsVolumeLimit,
}

/// Shares filled under the volume-participation limit.
#[derive(Debug, Clone, Copy, PartialEq, Eq, Structural)]
pub struct FillQuantity {
    pub quantity: u64,
    pub note: FillNote,
}

impl FillQuantity {
    /// A fill of zero shares counts as not executed.
    pub fn executed(&self) -> (r: bool)
        ensures
            r == (self.quantity > 0),
    {
        self.quantity > 0
    }
}

/// Fill rule: with the limit on, a request above the cap (the whole number of
/// shares that `volume * max_participation / close` allows) is cut to the cap
/// when partial fills are allowed, and refused otherwise.
pub open spec fn fill_of(
    requested: u64,
    volume_limit_enabled: bool,
    volume_cap: u64,
    partial_fill_enabled: bool,
) -> FillQuantity {
    if !volume_limit_enabled || requested <= volume_cap {
        FillQuantity { quantity: requested, note: FillNote::Complete }
    } else if partial_fill_enabled {
        FillQuantity { quantity: volume_cap, note: FillNote::PartialFill }
    } else {
        FillQuantity { quantity: 0, note: FillNote::ExceedsVolumeLimit }
    }
}

/// How many of `requested` shares fill, given the volume cap in whole shares.
pub fn calculate_fill_quantity(
    requested: u64,
    volume_limit_enabled: bool,
    volume_cap: u64,
    partial_fill_enabled: bool,
) -> (r: FillQuantity)
    ensures
        r == fill_of(requested, volume_limit_enabled, volume_cap, partial_fill_enabled),
        r.quantity <= requested,
        volume_limit_enabled ==> r.quantity <= volume_cap,
        volume_limit_enabled && requested > volume_cap && !partial_fill_enabled ==> r.quantity
            == 0,
{
    if !volume_limit_enabled || requested <= volume_cap {
        FillQuantity { quantity: requested, note: FillNote::Complete }
    } else if partial_fill_enabled {
        FillQuantity { quantity: volume_cap, note: FillNote::PartialFill }
    } else {
        FillQuantity { quantity: 0, note: FillNote::ExceedsVolumeLimit }
    }
}

} // verus!
