//! Order-book structure decisions over price keys.
//!
//! As in [`crate::classifier`], a price enters as a key: `Some(k)` with `k` ordered as the
//! prices are, or `None` for a price that orders against nothing. A comparison that involves
//! `None` is false, whichever way it is asked.

use vstd::prelude::*;

verus! {

/// `a` is a strictly higher price than `b`.
pub open spec fn key_gt(a: Option<i64>, b: Option<i64>) -> bool {
    match (a, b) {
        (Some(x), Some(y)) => x > y,
        _ => false,
    }
}

/// `a` is the same price as `b`.
pub open spec fn key_eq(a: Option<i64>, b: Option<i64>) -> bool {
    match (a, b) {
        (Some(x), Some(y)) => x == y,
        _ => false,
    }
}

/// `a` is a price at least as high as `b`.
pub open spec fn key_ge(a: Option<i64>, b: Option<i64>) -> bool {
    key_gt(a, b) || key_eq(a, b)
}

fn gt(a: Option<i64>, b: Option<i64>) -> (r: bool)
    ensures
        r == key_gt(a, b),
{
    match (a, b) {
        (Some(x), Some(y)) => x > y,
        _ => false,
    }
}

fn eq(a: Option<i64>, b: Option<i64>) -> (r: bool)
    ensures
        r == key_eq(a, b),
{
    match (a, b) {
        (Some(x), Some(y)) => x == y,
        _ => false,
    }
}

/// How one side's level moved between two book snapshots, from the point of view of order
/// flow: towards the other side, not at all, or away from it.
#[derive(Debug, Clone, Copy, PartialEq, Eq, Structural)]
pub enum LevelMove {
    /// The level moved towards the other side: the whole new queue is added pressure.
    Improved,
    /// Same price: the change in queue size is the pressure.
    Unchanged,
    /// The level moved away (or the move cannot be ordered): the whole old queue was removed.
    Worsened,
}

/// The move of a bid level whose price went from `prev` to `price`.
pub open spec fn bid_move_spec(price: Option<i64>, prev: Option<i64>) -> LevelMove {
    if key_gt(price, prev) {
        LevelMove::Improved
    } else if key_eq(price, prev) {
        LevelMove::Unchanged
    } else {
        LevelMove::Worsened
    }
}

/// The move of an ask level whose price went from `prev` to `price`.
pub open spec fn ask_move_spec(price: Option<i64>, prev: Option<i64>) -> LevelMove {
    if key_gt(prev, price) {
        LevelMove::Improved
    } else if key_eq(price, prev) {
        LevelMove::Unchanged
    } else {
        LevelMove::Worsened
    }
}

/// The move of a bid level from price key `prev` to `price`: a higher bid improved, an equal one
/// is unchanged, anything else worsened.
pub fn bid_move(price: Option<i64>, prev: Option<i64>) -> (m: LevelMove)
    ensures
        m == bid_move_spec(price, prev),
{
    if gt(price, prev) {
        LevelMove::Improved
    } else if eq(price, prev) {
        LevelMove::Unchanged
    } else {
        LevelMove::Worsened
    }
}

/// The move of an ask level from price key `prev` to `price`: a lower ask improved, an equal one
/// is unchanged, anything else worsened.
pub fn ask_move(price: Option<i64>, prev: Option<i64>) -> (m: LevelMove)
    ensures
        m == ask_move_spec(price, prev),
{
    if gt(prev, price) {
        LevelMove::Improved
    } else if eq(price, prev) {
        LevelMove::Unchanged
    } else {
        LevelMove::Worsened
    }
}

/// The ask side is the mirror of the bid side: an ask moving from `prev` to `price` moves the
/// way a bid moving from `price` to `prev` does.
pub proof fn lemma_ask_mirrors_bid(price: Option<i64>, prev: Option<i64>)
    ensures
        ask_move_spec(price, prev) == bid_move_spec(prev, price),
{
}

/// A structurally valid book: at least one level a side, best bid strictly below best ask,
/// bids in strictly descending and asks in strictly ascending price order, and (as reported by
/// the caller) every quantity strictly positive.
pub open spec fn book_valid(bids: Seq<Option<i64>>, asks: Seq<Option<i64>>, quantities_positive: bool) -> bool {
    &&& bids.len() > 0
    &&& asks.len() > 0
    &&& !key_ge(bids[0], asks[0])
    &&& forall|i: int| 0 <= i < bids.len() - 1 ==> key_gt(#[trigger] bids[i], bids[i + 1])
    &&& forall|i: int| 0 <= i < asks.len() - 1 ==> key_gt(asks[i + 1], #[trigger] asks[i])
    &&& quantities_positive
}

fn strictly_descending(keys: &[Option<i64>]) -> (r: bool)
    ensures
        r == (forall|i: int| 0 <= i < keys@.len() - 1 ==> key_gt(#[trigger] keys@[i], keys@[i + 1])),
{
    let n = keys.len();
    if n < 2 {
        return true;
    }
    let mut i: usize = 0;
    while i < n - 1
        invariant
            n == keys@.len(),
            n >= 2,
            i <= n - 1,
            forall|j: int| 0 <= j < i && j < n - 1 ==> key_gt(#[trigger] keys@[j], keys@[j + 1]),
        decreases n - i,
    {
        if !gt(keys[i], keys[i + 1]) {
            return false;
        }
        i = i + 1;
    }
    true
}

fn strictly_ascending(keys: &[Option<i64>]) -> (r: bool)
    ensures
        r == (forall|i: int| 0 <= i < keys@.len() - 1 ==> key_gt(keys@[i + 1], #[trigger] keys@[i])),
{
    let n = keys.len();
    if n < 2 {
        return true;
    }
    let mut i: usize = 0;
    while i < n - 1
        invariant
            n == keys@.len(),
            n >= 2,
            i <= n - 1,
            forall|j: int| 0 <= j < i && j < n - 1 ==> key_gt(keys@[j + 1], #[trigger] keys@[j]),
        decreases n - i,
    {
        if !gt(keys[i + 1], keys[i]) {
            return false;
        }
        i = i + 1;
    }
    true
}

/// Whether a book with bid price keys `bids` (best first), ask price keys `asks` (best first)
/// and, as `quantities_positive` reports, strictly positive quantities throughout is
/// structurally valid; see [`book_valid`].
pub fn book_is_valid(bids: &[Option<i64>], asks: &[Option<i64>], quantities_positive: bool) -> (r: bool)
    ensures
        r == book_valid(bids@, asks@, quantities_positive),
{
    if bids.len() == 0 || asks.len() == 0 {
        return false;
    }
    if gt(bids[0], asks[0]) || eq(bids[0], asks[0]) {
        return false;
    }
    strictly_descending(bids) && strictly_ascending(asks) && quantities_positive
}

proof fn lemma_ascending_between(a: Seq<Option<i64>>, i: int, j: int)
    requires
        forall|k: int| 0 <= k < a.len() - 1 ==> key_gt(a[k + 1], #[trigger] a[k]),
        0 <= i < j < a.len(),
    ensures
        key_gt(a[j], a[i]),
    decreases j - i,
{
    if j > i + 1 {
        lemma_ascending_between(a, i, j - 1);
        assert(key_gt(a[j], a[j - 1]));
    }
}

proof fn lemma_descending_between(a: Seq<Option<i64>>, i: int, j: int)
    requires
        forall|k: int| 0 <= k < a.len() - 1 ==> key_gt(#[trigger] a[k], a[k + 1]),
        0 <= i < j < a.len(),
    ensures
        key_gt(a[i], a[j]),
    decreases j - i,
{
    if j > i + 1 {
        lemma_descending_between(a, i, j - 1);
        assert(key_gt(a[j - 1], a[j]));
    }
}

/// In a valid book every price is ordered and distinct within its side: any later ask is at a
/// strictly higher price than any earlier ask, any later bid at a strictly lower price than any
/// earlier bid, so no two levels of a side share a price.
pub proof fn lemma_valid_book_levels_distinct(
    bids: Seq<Option<i64>>,
    asks: Seq<Option<i64>>,
    quantities_positive: bool,
)
    requires
        book_valid(bids, asks, quantities_positive),
    ensures
        forall|i: int, j: int|
            #![trigger asks[i], asks[j]]
            0 <= i < j < asks.len() ==> key_gt(asks[j], asks[i]) && asks[i] != asks[j],
        forall|i: int, j: int|
            #![trigger bids[i], bids[j]]
            0 <= i < j < bids.len() ==> key_gt(bids[i], bids[j]) && bids[i] != bids[j],
        quantities_positive,
{
    assert forall|i: int, j: int| #![trigger asks[i], asks[j]]
        0 <= i < j < asks.len() implies key_gt(asks[j], asks[i]) && asks[i] != asks[j] by {
        lemma_ascending_between(asks, i, j);
    }
    assert forall|i: int, j: int| #![trigger bids[i], bids[j]]
        0 <= i < j < bids.len() implies key_gt(bids[i], bids[j]) && bids[i] != bids[j] by {
        lemma_descending_between(bids, i, j);
    }
}

} // verus!
