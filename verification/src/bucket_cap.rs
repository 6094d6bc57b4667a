//! The per-trade cap on VSI bucket closes.
//!
//! A very large trade could close an unbounded number of fixed-volume buckets at once. After
//! [`MAX_BUCKETS_PER_TRADE`] closes, whatever volume of the trade remains is placed into the
//! open bucket without closing it, and the trade counts as capped.

use vstd::prelude::*;

verus! {

/// The most buckets a single trade may close.
pub const MAX_BUCKETS_PER_TRADE: usize = 100;

/// The buckets closed so far by the trade being absorbed.
#[derive(Debug, Clone, Copy, PartialEq, Eq, Structural)]
pub struct TradeBuckets {
    /// Buckets this trade has closed.
    pub closed: usize,
}

impl TradeBuckets {
    /// A trade that has closed no bucket yet.
    pub fn new() -> (t: Self)
        ensures
            t.closed == 0,
    {
        TradeBuckets { closed: 0 }
    }

    /// Record that the trade filled and closed one more bucket; `volume_left` says whether any
    /// of its volume remains. Returns whether the trade is capped: it has now closed
    /// [`MAX_BUCKETS_PER_TRADE`] buckets with volume left, which then goes into the open bucket.
    pub fn close_bucket(&mut self, volume_left: bool) -> (capped: bool)
        requires
            old(self).closed < MAX_BUCKETS_PER_TRADE,
        ensures
            final(self).closed == old(self).closed + 1,
            capped == (final(self).closed == MAX_BUCKETS_PER_TRADE && volume_left),
    {
        self.closed = self.closed + 1;
        self.closed == MAX_BUCKETS_PER_TRADE && volume_left
    }

    /// The trade may close another bucket.
    pub fn may_close(&self) -> (b: bool)
        ensures
            b == (self.closed < MAX_BUCKETS_PER_TRADE),
    {
        self.closed < MAX_BUCKETS_PER_TRADE
    }
}

} // verus!
