use microstructure_signals::regime::{fast_warm_up, RegimeDetector, RegimeStep};

#[test]
fn test_regime_zero_cooldown_is_refused() {
    assert!(RegimeDetector::new(0).is_none());
    assert!(RegimeDetector::new(1).is_some());
}

#[test]
fn test_regime_entry_needs_three_consecutive_breaches() {
    let mut d = RegimeDetector::new(5).unwrap();
    assert_eq!(d.step(true, true), RegimeStep::Normal);
    assert_eq!(d.step(true, true), RegimeStep::Normal);
    assert_eq!(d.step(false, true), RegimeStep::Normal);
    assert_eq!(d.step(true, false), RegimeStep::Normal);
    assert_eq!(d.step(true, false), RegimeStep::Normal);
    assert!(!d.is_in_regime_change());
    assert_eq!(d.step(true, false), RegimeStep::Entered);
    assert!(d.is_in_regime_change());
}

#[test]
fn test_regime_exit_waits_for_cooldown_and_low_ratio() {
    let mut d = RegimeDetector::new(3).unwrap();
    for _ in 0..3 {
        d.step(true, false);
    }
    assert!(d.is_in_regime_change());
    assert_eq!(d.step(false, true), RegimeStep::Held);
    assert_eq!(d.step(false, true), RegimeStep::Held);
    assert_eq!(d.step(false, false), RegimeStep::Held);
    assert_eq!(d.step(true, false), RegimeStep::Held);
    assert_eq!(d.step(true, true), RegimeStep::Exited);
    assert!(!d.is_in_regime_change());
    assert_eq!(d.step(true, true), RegimeStep::Normal);
}

#[test]
fn test_never_releases_while_in_regime_change() {
    let mut d = RegimeDetector::new(2).unwrap();
    let inputs = [
        (true, false), (true, true), (true, false), (false, false), (false, true), (true, true),
        (true, true), (true, true), (false, false), (false, true), (false, true),
    ];
    for (breached, low) in inputs {
        let step = d.step(breached, low);
        assert_eq!(step.releases_output(), !d.is_in_regime_change());
    }
}

#[test]
fn test_regime_reset_and_fast_warm_up() {
    let mut d = RegimeDetector::new(4).unwrap();
    for _ in 0..3 {
        d.step(true, false);
    }
    d.reset();
    assert!(!d.is_in_regime_change());
    assert_eq!(d.cooldown_period(), 4);
    assert_eq!(d.step(true, false), RegimeStep::Normal);
    assert_eq!(fast_warm_up(20), 10);
    assert_eq!(fast_warm_up(5), 5);
    assert_eq!(fast_warm_up(10), 10);
}
