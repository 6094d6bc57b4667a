# microstructure-signals (verified core)

A streaming engine that measures order flow toxicity and adverse selection risk from order
book snapshots and trades: Order Flow Imbalance, Depth Imbalance, Microprice, Volume-Synchronised
Imbalance, Effective Spread, EWMA z-score normalisation with regime-change detection, and
weighted composites of the z-scores.

## Layout

- `src/` — the Verus library. It holds every decision of the engine that does not need a
  real number, each with a contract proved by Verus:
  - `side` — trade direction.
  - `classifier` — tick rule and quote rule (Lee-Ready) trade classification over
    order-preserving integer price keys, and the engine's classifier choice.
  - `book` — book structure validity and how a bid or ask level moved between snapshots.
  - `ring_window` — the rolling window every windowed signal is summed over.
  - `bucket_cap` — the per-trade cap on VSI bucket closes.
  - `regime` — regime-change entry, cooldown and exit.
  - `selection` — signal selection and the components an engine builds for it.
  - `config` — which configuration error is reported first.
  - `counters` — event counts, timestamps, staleness, warm-up and normaliser readiness.
- `app/` — the engine itself in ordinary Rust: the floating-point signal arithmetic (sums,
  ratios, EWMA estimates, z-scores, composites), the `f64` data types with serde support, and
  the glue that turns `f64` prices into the price keys the library compares.
- `tests/` — tests of the library.

A price key is `Some(k)` where `k` is an integer ordered exactly as the prices are (the
IEEE-754 bit pattern with the magnitude bits of negative values flipped, `-0.0` taken as
`0.0`), or `None` for NaN, which compares neither above, below nor equal to any price.
