use microstructure_signals::book::book_is_valid;
use microstructure_signals::side::TradeSide;

/// Order-preserving integer key of a price (`None` for NaN), as the library's book and
/// classifier decisions take prices.
fn key(p: f64) -> Option<i64> {
    if p.is_nan() {
        return None;
    }
    let p = if p == 0.0 { 0.0 } else { p };
    let bits = p.to_bits() as i64;
    Some(if bits < 0 { bits ^ i64::MAX } else { bits })
}

/// `(price, quantity)` levels judged the way a book snapshot is: price keys, and whether every
/// quantity is strictly positive.
fn is_valid(bids: &[(f64, f64)], asks: &[(f64, f64)]) -> bool {
    let bid_keys: Vec<Option<i64>> = bids.iter().map(|l| key(l.0)).collect();
    let ask_keys: Vec<Option<i64>> = asks.iter().map(|l| key(l.0)).collect();
    let positive = bids.iter().chain(asks.iter()).all(|l| l.1 > 0.0);
    book_is_valid(&bid_keys, &ask_keys, positive)
}

#[test]
fn test_trade_side_enum() {
    assert_eq!(TradeSide::Buy, TradeSide::Buy);
    assert_ne!(TradeSide::Buy, TradeSide::Sell);
}

#[test]
fn test_trade_side_sign() {
    assert_eq!(TradeSide::Buy.sign(), 1);
    assert_eq!(TradeSide::Sell.sign(), -1);
}

#[test]
fn test_book_snapshot_crossed_book_is_invalid() {
    assert!(!is_valid(&[(100.0, 50.0)], &[(100.0, 50.0)]));
    assert!(!is_valid(&[(101.0, 50.0)], &[(100.0, 50.0)]));
}

#[test]
fn test_book_snapshot_valid_book() {
    assert!(is_valid(&[(100.0, 50.0), (99.5, 100.0)], &[(101.0, 50.0), (101.5, 100.0)]));
}

#[test]
fn test_book_snapshot_zero_quantity_is_invalid() {
    assert!(!is_valid(&[(100.0, 0.0)], &[(101.0, 50.0)]));
}

#[test]
fn test_book_snapshot_misordered_bids_is_invalid() {
    assert!(!is_valid(&[(99.0, 50.0), (100.0, 50.0)], &[(101.0, 50.0)]));
}

#[test]
fn test_book_snapshot_misordered_asks_is_invalid() {
    assert!(!is_valid(&[(100.0, 50.0)], &[(102.0, 50.0), (101.0, 50.0)]));
}

#[test]
fn test_book_snapshot_duplicate_bid_price_is_invalid() {
    assert!(!is_valid(&[(100.0, 50.0), (100.0, 30.0)], &[(101.0, 50.0)]));
}

#[test]
fn test_book_empty_side_is_invalid() {
    assert!(!is_valid(&[], &[(101.0, 50.0)]));
    assert!(!is_valid(&[(100.0, 50.0)], &[]));
}

#[test]
fn test_book_negative_prices_ordered() {
    assert!(is_valid(&[(-1.0, 5.0), (-2.0, 5.0)], &[(-0.5, 5.0), (0.0, 5.0), (3.0, 1.0)]));
    assert!(!is_valid(&[(-2.0, 5.0), (-1.0, 5.0)], &[(0.0, 5.0)]));
}

#[test]
fn test_book_nan_price_breaks_ordering_only_within_a_side() {
    // A NaN best price compares neither above nor below the other side, so a one-level book
    // with it passes the crossed check; inside a side it breaks the strict ordering.
    assert!(is_valid(&[(f64::NAN, 5.0)], &[(101.0, 5.0)]));
    assert!(!is_valid(&[(100.0, 5.0), (f64::NAN, 5.0)], &[(101.0, 5.0)]));
}
