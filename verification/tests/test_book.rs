use microstructure_signals::book::{ask_move, bid_move, LevelMove};

fn key(p: f64) -> Option<i64> {
    if p.is_nan() {
        return None;
    }
    let p = if p == 0.0 { 0.0 } else { p };
    let bits = p.to_bits() as i64;
    Some(if bits < 0 { bits ^ i64::MAX } else { bits })
}

#[test]
fn test_bid_moves() {
    assert_eq!(bid_move(key(100.1), key(100.0)), LevelMove::Improved);
    assert_eq!(bid_move(key(100.0), key(100.0)), LevelMove::Unchanged);
    assert_eq!(bid_move(key(99.9), key(100.0)), LevelMove::Worsened);
    assert_eq!(bid_move(key(f64::NAN), key(100.0)), LevelMove::Worsened);
    assert_eq!(bid_move(key(-0.0), key(0.0)), LevelMove::Unchanged);
}

#[test]
fn test_ask_moves() {
    assert_eq!(ask_move(key(100.9), key(101.0)), LevelMove::Improved);
    assert_eq!(ask_move(key(101.0), key(101.0)), LevelMove::Unchanged);
    assert_eq!(ask_move(key(101.1), key(101.0)), LevelMove::Worsened);
    assert_eq!(ask_move(key(101.0), key(f64::NAN)), LevelMove::Worsened);
}

#[test]
fn test_ask_mirrors_bid() {
    let prices = [99.0, 100.0, 100.5, f64::NAN, -1.0, 0.0];
    for &p in &prices {
        for &q in &prices {
            assert_eq!(ask_move(key(p), key(q)), bid_move(key(q), key(p)));
        }
    }
}
