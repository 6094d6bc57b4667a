//! Verified decision core of a streaming order-flow toxicity engine.
//!
//! The engine measures order flow toxicity from order book snapshots and trades. Its signal
//! values are real numbers; this library holds every decision the engine makes that does not
//! need one: classifying trades by the tick and quote rules, judging book structure and level
//! moves over order-preserving price keys, the rolling windows the signals are summed over,
//! regime-change entry and exit, which components a signal selection builds, configuration
//! precedence, and the event counters, staleness and warm-up bookkeeping.

pub mod book;
pub mod bucket_cap;
pub mod classifier;
pub mod config;
pub mod counters;
pub mod regime;
pub mod ring_window;
pub mod selection;
pub mod side;

pub use classifier::{ClassifierType, QuoteRuleClassifier, TickRuleClassifier};
pub use selection::SignalSelection;
pub use side::TradeSide;
