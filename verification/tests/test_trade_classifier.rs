use microstructure_signals::classifier::{
    ClassifierType, QuoteRuleClassifier, TickRuleClassifier, TradeClassifier,
};
use microstructure_signals::side::TradeSide;

/// Order-preserving integer key of a price (`None` for NaN).
fn key(p: f64) -> Option<i64> {
    if p.is_nan() {
        return None;
    }
    let p = if p == 0.0 { 0.0 } else { p };
    let bits = p.to_bits() as i64;
    Some(if bits < 0 { bits ^ i64::MAX } else { bits })
}

/// Key of the mid-price of a one-level book with the given best bid and ask.
fn mid(bid: f64, ask: f64) -> Option<i64> {
    key((bid + ask) / 2.0)
}

#[test]
fn test_tick_rule_uptick_is_buy() {
    let mut classifier = TickRuleClassifier::new();
    classifier.classify(key(100.0));
    assert_eq!(classifier.classify(key(101.0)), TradeSide::Buy);
}

#[test]
fn test_tick_rule_downtick_is_sell() {
    let mut classifier = TickRuleClassifier::new();
    classifier.classify(key(100.0));
    assert_eq!(classifier.classify(key(99.0)), TradeSide::Sell);
}

#[test]
fn test_tick_rule_zero_tick_carries_forward() {
    let mut classifier = TickRuleClassifier::new();
    classifier.classify(key(100.0));
    classifier.classify(key(101.0));
    assert_eq!(classifier.classify(key(101.0)), TradeSide::Buy);

    classifier.classify(key(100.0));
    assert_eq!(classifier.classify(key(100.0)), TradeSide::Sell);
}

#[test]
fn test_tick_rule_first_trade_defaults_to_buy() {
    let mut classifier = TickRuleClassifier::new();
    assert_eq!(classifier.classify(key(100.0)), TradeSide::Buy);
}

#[test]
fn test_tick_rule_sequence() {
    let mut classifier = TickRuleClassifier::new();
    assert_eq!(classifier.classify(key(100.0)), TradeSide::Buy);
    assert_eq!(classifier.classify(key(101.0)), TradeSide::Buy);
    assert_eq!(classifier.classify(key(101.0)), TradeSide::Buy);
    assert_eq!(classifier.classify(key(100.5)), TradeSide::Sell);
    assert_eq!(classifier.classify(key(100.5)), TradeSide::Sell);
    assert_eq!(classifier.classify(key(101.0)), TradeSide::Buy);
}

#[test]
fn test_quote_rule_above_mid_is_buy() {
    let mut classifier = QuoteRuleClassifier::new();
    assert_eq!(classifier.classify(key(100.6), mid(100.0, 101.0)), TradeSide::Buy);
}

#[test]
fn test_quote_rule_below_mid_is_sell() {
    let mut classifier = QuoteRuleClassifier::new();
    assert_eq!(classifier.classify(key(100.4), mid(100.0, 101.0)), TradeSide::Sell);
}

#[test]
fn test_quote_rule_at_mid_falls_back_to_tick() {
    let mut classifier = QuoteRuleClassifier::new();
    let m = mid(100.0, 101.0);

    classifier.classify(key(100.4), m);
    assert_eq!(classifier.classify(key(100.5), m), TradeSide::Buy);

    classifier.classify(key(100.6), m);
    assert_eq!(classifier.classify(key(100.5), m), TradeSide::Sell);
}

#[test]
fn test_quote_rule_without_mid_is_tick_rule() {
    let mut quote = QuoteRuleClassifier::new();
    let mut tick = TickRuleClassifier::new();
    for p in [100.0, 99.0, 99.0, 101.0, 101.0, 100.5] {
        assert_eq!(quote.classify(key(p), None), tick.classify(key(p)));
    }
}

#[test]
fn test_tick_rule_nan_price_repeats_side() {
    let mut classifier = TickRuleClassifier::new();
    classifier.classify(key(100.0));
    assert_eq!(classifier.classify(key(99.0)), TradeSide::Sell);
    assert_eq!(classifier.classify(key(f64::NAN)), TradeSide::Sell);
    // The previous price is unordered, so the next move cannot be ordered either.
    assert_eq!(classifier.classify(key(200.0)), TradeSide::Sell);
    assert_eq!(classifier.classify(key(201.0)), TradeSide::Buy);
}

#[test]
fn test_trade_classifier_dispatch() {
    assert_eq!(ClassifierType::default(), ClassifierType::QuoteRule);
    let mut tick = TradeClassifier::new(ClassifierType::TickRule);
    let mut quote = TradeClassifier::new(ClassifierType::QuoteRule);
    let m = mid(100.0, 101.0);
    assert_eq!(tick.classify(key(100.0), m), TradeSide::Buy);
    assert_eq!(quote.classify(key(100.0), m), TradeSide::Sell);
    assert_eq!(tick.classify(key(99.0), m), TradeSide::Sell);
    assert_eq!(quote.classify(key(100.5), m), TradeSide::Buy);
}

#[test]
fn test_trade_classifier_reset_keeps_rule() {
    let mut c = TradeClassifier::new(ClassifierType::TickRule);
    c.classify(key(100.0), None);
    assert_eq!(c.classify(key(99.0), None), TradeSide::Sell);
    c.reset();
    assert!(matches!(c, TradeClassifier::Tick(_)));
    assert_eq!(c.classify(key(50.0), None), TradeSide::Buy);
}
