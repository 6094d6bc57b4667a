//! The integer bookkeeping an engine reports alongside its signals: event counts,
//! timestamps, VSI bucket counts, staleness, warm-up and normaliser readiness.

use vstd::prelude::*;

verus! {

/// Event counts and timestamps of an engine, as reported in every signal snapshot.
#[derive(Debug, Clone, Copy, PartialEq, Eq, Structural)]
pub struct EngineCounters {
    /// Total number of VSI buckets completed.
    pub vsi_buckets_completed: u64,
    /// Number of trades that spanned more than the per-trade bucket cap and were capped.
    pub vsi_capped_trades: u64,
    /// Nanosecond timestamp of the most recent book update (0 before any update).
    pub last_book_update_ns: u64,
    /// Nanosecond timestamp of the most recent trade (0 before any trade).
    pub last_trade_ns: u64,
    /// Total number of book updates processed.
    pub book_update_count: u64,
    /// Total number of trades processed.
    pub trade_count: u64,
}

/// All counters and timestamps zero.
pub open spec fn zero_counters() -> EngineCounters {
    EngineCounters {
        vsi_buckets_completed: 0,
        vsi_capped_trades: 0,
        last_book_update_ns: 0,
        last_trade_ns: 0,
        book_update_count: 0,
        trade_count: 0,
    }
}

/// Whether a snapshot with these counters is stale at `current_ns`: no book update has ever
/// been received, or more than `max_staleness_ns` nanoseconds have passed since the last one
/// (a last update in the future counts as no time passed).
pub open spec fn stale(c: EngineCounters, current_ns: u64, max_staleness_ns: u64) -> bool {
    c.book_update_count == 0 || (current_ns > c.last_book_update_ns && current_ns
        - c.last_book_update_ns > max_staleness_ns)
}

impl EngineCounters {
    /// Counters of an engine that has processed nothing.
    pub fn new() -> (c: Self)
        ensures
            c == zero_counters(),
    {
        EngineCounters {
            vsi_buckets_completed: 0,
            vsi_capped_trades: 0,
            last_book_update_ns: 0,
            last_trade_ns: 0,
            book_update_count: 0,
            trade_count: 0,
        }
    }

    /// Record a book update stamped `timestamp_ns`.
    pub fn record_book_update(&mut self, timestamp_ns: u64)
        requires
            old(self).book_update_count < u64::MAX,
        ensures
            *final(self) == (EngineCounters {
                last_book_update_ns: timestamp_ns,
                book_update_count: (old(self).book_update_count + 1) as u64,
                ..*old(self)
            }),
    {
        self.last_book_update_ns = timestamp_ns;
        self.book_update_count = self.book_update_count + 1;
    }

    /// Record a trade stamped `timestamp_ns`. `vsi` carries the VSI calculator's completed
    /// bucket count and capped trade count after the trade, when the trade reached VSI.
    /// Returns whether the trade completed at least one new bucket, which is when VSI's z-score
    /// and the composites are recomputed.
    pub fn record_trade(&mut self, timestamp_ns: u64, vsi: Option<(u64, u64)>) -> (bucket_closed: bool)
        requires
            old(self).trade_count < u64::MAX,
        ensures
            *final(self) == (match vsi {
                Some((buckets, capped)) => EngineCounters {
                    vsi_buckets_completed: buckets,
                    vsi_capped_trades: capped,
                    last_trade_ns: timestamp_ns,
                    trade_count: (old(self).trade_count + 1) as u64,
                    ..*old(self)
                },
                None => EngineCounters {
                    last_trade_ns: timestamp_ns,
                    trade_count: (old(self).trade_count + 1) as u64,
                    ..*old(self)
                },
            }),
            bucket_closed == (final(self).vsi_buckets_completed > old(self).vsi_buckets_completed),
    {
        let prev_buckets = self.vsi_buckets_completed;
        if let Some((buckets, capped)) = vsi {
            self.vsi_buckets_completed = buckets;
            self.vsi_capped_trades = capped;
        }
        self.last_trade_ns = timestamp_ns;
        self.trade_count = self.trade_count + 1;
        self.vsi_buckets_completed > prev_buckets
    }

    /// Returns `true` if the snapshot is stale relative to `current_ns`: no book update has
    /// ever been received, or more than `max_staleness_ns` nanoseconds have elapsed since the
    /// last book update.
    pub fn is_stale(&self, current_ns: u64, max_staleness_ns: u64) -> (b: bool)
        ensures
            b == stale(*self, current_ns, max_staleness_ns),
    {
        let elapsed = if current_ns > self.last_book_update_ns {
            current_ns - self.last_book_update_ns
        } else {
            0
        };
        self.book_update_count == 0 || elapsed > max_staleness_ns
    }
}

impl Default for EngineCounters {
    fn default() -> (c: Self)
        ensures
            c == zero_counters(),
    {
        Self::new()
    }
}

/// A normaliser that is absent counts as ready; one that is present counts by its own flag.
pub open spec fn ready_or_absent(n: Option<bool>) -> bool {
    match n {
        Some(ready) => ready,
        None => true,
    }
}

/// Whether every enabled normaliser is ready, given the readiness of the OFI, Depth Imbalance,
/// Microprice Deviation and VSI normalisers (`None` for one that is disabled). With none
/// enabled, this is `true`.
pub fn all_normalisers_ready(
    ofi: Option<bool>,
    depth_imbalance: Option<bool>,
    microprice_deviation: Option<bool>,
    vsi: Option<bool>,
) -> (b: bool)
    ensures
        b == (ready_or_absent(ofi) && ready_or_absent(depth_imbalance) && ready_or_absent(
            microprice_deviation,
        ) && ready_or_absent(vsi)),
{
    is_ready_or_absent(ofi) && is_ready_or_absent(depth_imbalance) && is_ready_or_absent(
        microprice_deviation,
    ) && is_ready_or_absent(vsi)
}

fn is_ready_or_absent(n: Option<bool>) -> (b: bool)
    ensures
        b == ready_or_absent(n),
{
    match n {
        Some(ready) => ready,
        None => true,
    }
}

/// The observation count of a normaliser against its warm-up length.
#[derive(Debug, Clone, Copy, PartialEq, Eq, Structural)]
pub struct WarmUpCounter {
    /// Observations seen (a seeded normaliser starts at its warm-up length).
    pub count: usize,
    /// Observations needed before z-scores are handed out.
    pub warm_up: usize,
}

impl WarmUpCounter {
    /// No observation seen yet.
    pub fn new(warm_up: usize) -> (c: Self)
        ensures
            c == (WarmUpCounter { count: 0, warm_up }),
    {
        WarmUpCounter { count: 0, warm_up }
    }

    /// Seeded from persisted state: counts as exactly warmed up.
    pub fn seeded(warm_up: usize) -> (c: Self)
        ensures
            c == (WarmUpCounter { count: warm_up, warm_up }),
    {
        WarmUpCounter { count: warm_up, warm_up }
    }

    /// The next observation is the first one (it initialises the estimate rather than
    /// updating it).
    pub fn is_first(&self) -> (b: bool)
        ensures
            b == (self.count == 0),
    {
        self.count == 0
    }

    /// At least `warm_up` observations have been seen.
    pub fn is_warmup_complete(&self) -> (b: bool)
        ensures
            b == (self.count >= self.warm_up),
    {
        self.count >= self.warm_up
    }

    /// Count one more observation.
    pub fn observe(&mut self)
        requires
            old(self).count < usize::MAX,
        ensures
            *final(self) == (WarmUpCounter { count: (old(self).count + 1) as usize, ..*old(self) }),
    {
        self.count = self.count + 1;
    }

    /// Seeded from persisted state: the count becomes the warm-up length.
    pub fn reseed(&mut self)
        ensures
            *final(self) == (WarmUpCounter { count: old(self).warm_up, ..*old(self) }),
    {
        self.count = self.warm_up;
    }

    /// Forget every observation.
    pub fn reset(&mut self)
        ensures
            *final(self) == (WarmUpCounter { count: 0, ..*old(self) }),
    {
        self.count = 0;
    }
}

/// A snapshot with fresh counters is stale at every time; right after a book update stamped
/// `ts` it is fresh at `ts` for every staleness bound, whatever that timestamp is (a book stamped
/// zero does not leave the engine permanently stale).
pub proof fn lemma_book_update_freshens(c: EngineCounters, ts: u64, max_staleness_ns: u64)
    requires
        c.book_update_count < u64::MAX,
    ensures
        stale(zero_counters(), ts, max_staleness_ns),
        !stale(
            EngineCounters {
                last_book_update_ns: ts,
                book_update_count: (c.book_update_count + 1) as u64,
                ..c
            },
            ts,
            max_staleness_ns,
        ),
{
}

/// Each event moves only its own counters: a book update advances the book count by one and
/// stamps its timestamp, leaving the trade and VSI counters as they were; a trade advances the
/// trade count by one and stamps its timestamp, leaving the book counters as they were, and
/// touches the VSI counters only when it reached VSI.
pub proof fn lemma_events_touch_own_counters(c: EngineCounters, ts: u64, vsi: Option<(u64, u64)>)
    requires
        c.book_update_count < u64::MAX,
        c.trade_count < u64::MAX,
    ensures
        ({
            let b = EngineCounters {
                last_book_update_ns: ts,
                book_update_count: (c.book_update_count + 1) as u64,
                ..c
            };
            &&& b.book_update_count == c.book_update_count + 1
            &&& b.trade_count == c.trade_count && b.last_trade_ns == c.last_trade_ns
            &&& b.vsi_buckets_completed == c.vsi_buckets_completed
            &&& b.vsi_capped_trades == c.vsi_capped_trades
        }),
        ({
            let t = match vsi {
                Some((buckets, capped)) => EngineCounters {
                    vsi_buckets_completed: buckets,
                    vsi_capped_trades: capped,
                    last_trade_ns: ts,
                    trade_count: (c.trade_count + 1) as u64,
                    ..c
                },
                None => EngineCounters { last_trade_ns: ts, trade_count: (c.trade_count + 1) as u64, ..c },
            };
            &&& t.trade_count == c.trade_count + 1 && t.last_trade_ns == ts
            &&& t.book_update_count == c.book_update_count
            &&& t.last_book_update_ns == c.last_book_update_ns
            &&& (vsi is None ==> t.vsi_buckets_completed == c.vsi_buckets_completed
                && t.vsi_capped_trades == c.vsi_capped_trades)
        }),
{
}

/// Staleness is judged from book updates alone: two sets of counters that agree on the book
/// update count and the last book update time get the same answer, whatever their trade and VSI
/// counters say (a recent trade does not hide a stale book).
pub proof fn lemma_staleness_ignores_trades(
    a: EngineCounters,
    b: EngineCounters,
    current_ns: u64,
    max_staleness_ns: u64,
)
    requires
        a.book_update_count == b.book_update_count,
        a.last_book_update_ns == b.last_book_update_ns,
    ensures
        stale(a, current_ns, max_staleness_ns) == stale(b, current_ns, max_staleness_ns),
{
}

/// A snapshot is stale when no book update was ever received, and when more time than the bound
/// has passed since the last book update; it is fresh when a book update was received and no
/// more than the bound has passed since it (or the clock is behind it).
pub proof fn lemma_staleness_by_elapsed_time(c: EngineCounters, current_ns: u64, max_staleness_ns: u64)
    ensures
        c.book_update_count == 0 ==> stale(c, current_ns, max_staleness_ns),
        c.book_update_count > 0 && current_ns >= c.last_book_update_ns ==> (stale(
            c,
            current_ns,
            max_staleness_ns,
        ) <==> current_ns - c.last_book_update_ns > max_staleness_ns),
        c.book_update_count > 0 && current_ns < c.last_book_update_ns ==> !stale(
            c,
            current_ns,
            max_staleness_ns,
        ),
{
}

} // verus!
