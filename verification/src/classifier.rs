//! Trade side classifiers: the tick rule and the quote rule (Lee-Ready).
//!
//! Prices reach the classifiers as *price keys*: `Some(k)`, where `k` is an integer
//! whose order is the order of the prices it stands for (equal prices, equal keys),
//! or `None` for a price that compares neither above, below nor equal to any other
//! price (a NaN quote). Every decision below is a comparison of keys.

use vstd::prelude::*;

use crate::side::TradeSide;

verus! {

/// What a tick-rule classifier remembers of the previous trade's price.
#[derive(Debug, Clone, Copy, PartialEq, Eq, Structural)]
pub enum LastPrice {
    /// No trade has been classified yet.
    Unseen,
    /// The previous trade's price was unordered.
    Unordered,
    /// The previous trade's price key.
    At(i64),
}

/// What a classifier remembers of a trade at price key `price`.
pub open spec fn remembered(price: Option<i64>) -> LastPrice {
    match price {
        Some(p) => LastPrice::At(p),
        None => LastPrice::Unordered,
    }
}

/// The tick rule: the first trade is a buy; an uptick is a buy, a downtick a sell, and a
/// zero tick (or a move that cannot be ordered) repeats the previous side.
pub open spec fn tick_rule_side(last: LastPrice, last_side: TradeSide, price: Option<i64>) -> TradeSide {
    match last {
        LastPrice::Unseen => TradeSide::Buy,
        LastPrice::Unordered => last_side,
        LastPrice::At(prev) => match price {
            Some(p) => if p > prev {
                TradeSide::Buy
            } else if p < prev {
                TradeSide::Sell
            } else {
                last_side
            },
            None => last_side,
        },
    }
}

/// The side the quote rule assigns by itself: above the mid is a buy, below is a sell; at the mid, or when
/// either the mid or the price is missing or unordered, it has none.
pub open spec fn quote_rule_side(price: Option<i64>, mid: Option<i64>) -> Option<TradeSide> {
    match (price, mid) {
        (Some(p), Some(m)) => if p > m {
            Some(TradeSide::Buy)
        } else if p < m {
            Some(TradeSide::Sell)
        } else {
            None
        },
        _ => None,
    }
}

/// Tick-rule trade classifier.
///
/// Classifies a trade as a buy if the price ticked up from the previous trade, a sell if it
/// ticked down, or repeats the previous classification on an unchanged price. The first
/// trade is always a buy. Needs no book data.
#[derive(Debug, Clone, Copy)]
pub struct TickRuleClassifier {
    last_price: LastPrice,
    last_side: TradeSide,
}

impl TickRuleClassifier {
    /// The remembered price of the previous trade.
    pub closed spec fn last_price(&self) -> LastPrice {
        self.last_price
    }

    /// The side given to the previous trade (a buy before any trade).
    pub closed spec fn last_side(&self) -> TradeSide {
        self.last_side
    }

    /// A classifier that has seen no trade.
    pub fn new() -> (c: Self)
        ensures
            c.last_price() == LastPrice::Unseen,
            c.last_side() == TradeSide::Buy,
    {
        TickRuleClassifier { last_price: LastPrice::Unseen, last_side: TradeSide::Buy }
    }

    /// Classify a trade at price key `price` and remember it. Returns the inferred side.
    pub fn classify(&mut self, price: Option<i64>) -> (side: TradeSide)
        ensures
            side == tick_rule_side(old(self).last_price(), old(self).last_side(), price),
            final(self).last_price() == remembered(price),
            final(self).last_side() == side,
    {
        let side = match self.last_price {
            LastPrice::Unseen => TradeSide::Buy,
            LastPrice::Unordered => self.last_side,
            LastPrice::At(prev) => match price {
                Some(p) => {
                    if p > prev {
                        TradeSide::Buy
                    } else if p < prev {
                        TradeSide::Sell
                    } else {
                        self.last_side
                    }
                },
                None => self.last_side,
            },
        };
        self.set_state(price, side);
        side
    }

    fn set_state(&mut self, price: Option<i64>, side: TradeSide)
        ensures
            final(self).last_price() == remembered(price),
            final(self).last_side() == side,
    {
        self.last_price = match price {
            Some(p) => LastPrice::At(p),
            None => LastPrice::Unordered,
        };
        self.last_side = side;
    }
}

impl Default for TickRuleClassifier {
    fn default() -> (c: Self)
        ensures
            c.last_price() == LastPrice::Unseen,
            c.last_side() == TradeSide::Buy,
    {
        Self::new()
    }
}

/// Quote-rule (Lee-Ready) trade classifier.
///
/// A trade above the prevailing mid is a buy, below it a sell; at the mid (or without a usable
/// mid) it falls back to the tick rule. Every trade, however it was classified, becomes the
/// tick rule's previous trade.
#[derive(Debug, Clone, Copy)]
pub struct QuoteRuleClassifier {
    tick_rule: TickRuleClassifier,
}

impl QuoteRuleClassifier {
    /// The remembered price of the previous trade.
    pub closed spec fn last_price(&self) -> LastPrice {
        self.tick_rule.last_price()
    }

    /// The side given to the previous trade (a buy before any trade).
    pub closed spec fn last_side(&self) -> TradeSide {
        self.tick_rule.last_side()
    }

    /// A classifier that has seen no trade.
    pub fn new() -> (c: Self)
        ensures
            c.last_price() == LastPrice::Unseen,
            c.last_side() == TradeSide::Buy,
    {
        QuoteRuleClassifier { tick_rule: TickRuleClassifier::new() }
    }

    /// Classify a trade at price key `price` against the mid-price key `mid` (`None` when the
    /// book has no mid, or its mid is unordered). Returns the inferred side.
    pub fn classify(&mut self, price: Option<i64>, mid: Option<i64>) -> (side: TradeSide)
        ensures
            side == (match quote_rule_side(price, mid) {
                Some(s) => s,
                None => tick_rule_side(old(self).last_price(), old(self).last_side(), price),
            }),
            final(self).last_price() == remembered(price),
            final(self).last_side() == side,
    {
        if let (Some(p), Some(m)) = (price, mid) {
            if p > m {
                self.tick_rule.set_state(price, TradeSide::Buy);
                return TradeSide::Buy;
            } else if p < m {
                self.tick_rule.set_state(price, TradeSide::Sell);
                return TradeSide::Sell;
            }
        }
        self.tick_rule.classify(price)
    }
}

impl Default for QuoteRuleClassifier {
    fn default() -> (c: Self)
        ensures
            c.last_price() == LastPrice::Unseen,
            c.last_side() == TradeSide::Buy,
    {
        Self::new()
    }
}

/// Which trade classification algorithm an engine uses for VSI and Effective Spread.
#[derive(Debug, Clone, Copy, PartialEq, Eq, Structural)]
pub enum ClassifierType {
    /// Tick rule: classifies by price movement direction. Needs no book data.
    TickRule,
    /// Quote rule (Lee-Ready): classifies by position relative to the mid-price, falling back
    /// to the tick rule at the mid. This is the default.
    QuoteRule,
}

impl Default for ClassifierType {
    fn default() -> (t: Self)
        ensures
            t == ClassifierType::QuoteRule,
    {
        ClassifierType::QuoteRule
    }
}

/// The classifier an engine runs: one of the two rules, chosen by [`ClassifierType`].
#[derive(Debug, Clone, Copy)]
pub enum TradeClassifier {
    /// Tick rule.
    Tick(TickRuleClassifier),
    /// Quote rule.
    Quote(QuoteRuleClassifier),
}

impl TradeClassifier {
    /// The rule this classifier runs.
    pub open spec fn kind(&self) -> ClassifierType {
        match self {
            TradeClassifier::Tick(_) => ClassifierType::TickRule,
            TradeClassifier::Quote(_) => ClassifierType::QuoteRule,
        }
    }

    /// The remembered price of the previous trade.
    pub open spec fn last_price(&self) -> LastPrice {
        match self {
            TradeClassifier::Tick(c) => c.last_price(),
            TradeClassifier::Quote(c) => c.last_price(),
        }
    }

    /// The side given to the previous trade.
    pub open spec fn last_side(&self) -> TradeSide {
        match self {
            TradeClassifier::Tick(c) => c.last_side(),
            TradeClassifier::Quote(c) => c.last_side(),
        }
    }

    /// The side this classifier gives a trade at `price` against `mid` in its current state.
    pub open spec fn side_for(&self, price: Option<i64>, mid: Option<i64>) -> TradeSide {
        match self {
            TradeClassifier::Tick(c) => tick_rule_side(c.last_price(), c.last_side(), price),
            TradeClassifier::Quote(c) => match quote_rule_side(price, mid) {
                Some(s) => s,
                None => tick_rule_side(c.last_price(), c.last_side(), price),
            },
        }
    }

    /// A fresh classifier running the rule `kind`.
    pub fn new(kind: ClassifierType) -> (c: Self)
        ensures
            c.kind() == kind,
            c.last_price() == LastPrice::Unseen,
            c.last_side() == TradeSide::Buy,
    {
        match kind {
            ClassifierType::TickRule => TradeClassifier::Tick(TickRuleClassifier::new()),
            ClassifierType::QuoteRule => TradeClassifier::Quote(QuoteRuleClassifier::new()),
        }
    }

    /// Forget every trade seen, keeping the rule.
    pub fn reset(&mut self)
        ensures
            final(self).kind() == old(self).kind(),
            final(self).last_price() == LastPrice::Unseen,
            final(self).last_side() == TradeSide::Buy,
    {
        *self = match self {
            TradeClassifier::Tick(_) => TradeClassifier::Tick(TickRuleClassifier::new()),
            TradeClassifier::Quote(_) => TradeClassifier::Quote(QuoteRuleClassifier::new()),
        };
    }

    /// Classify a trade at price key `price`; the tick rule ignores `mid`.
    pub fn classify(&mut self, price: Option<i64>, mid: Option<i64>) -> (side: TradeSide)
        ensures
            side == old(self).side_for(price, mid),
            final(self).kind() == old(self).kind(),
            final(self).last_price() == remembered(price),
            final(self).last_side() == side,
    {
        match self {
            TradeClassifier::Tick(c) => c.classify(price),
            TradeClassifier::Quote(c) => c.classify(price, mid),
        }
    }
}

} // verus!
