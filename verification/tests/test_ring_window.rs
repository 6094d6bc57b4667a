use microstructure_signals::ring_window::RingWindow;

fn sum(w: &RingWindow<f64>) -> f64 {
    w.to_vec().iter().sum()
}

fn mean(w: &RingWindow<f64>) -> Option<f64> {
    if w.is_empty() {
        None
    } else {
        Some(sum(w) / w.len() as f64)
    }
}

#[test]
fn test_new_buffer_is_empty() {
    let buf: RingWindow<f64> = RingWindow::new(5);
    assert!(buf.is_empty());
    assert_eq!(buf.len(), 0);
    assert!(!buf.is_full());
    assert!((sum(&buf) - 0.0).abs() < 1e-10);
    assert!(mean(&buf).is_none());
}

#[test]
fn test_push_single_value() {
    let mut buf = RingWindow::new(5);
    buf.push(10.0);
    assert_eq!(buf.len(), 1);
    assert!((sum(&buf) - 10.0).abs() < 1e-10);
    assert!((mean(&buf).unwrap() - 10.0).abs() < 1e-10);
}

#[test]
fn test_push_until_full() {
    let mut buf = RingWindow::new(3);
    buf.push(1.0);
    buf.push(2.0);
    buf.push(3.0);
    assert!(buf.is_full());
    assert!((sum(&buf) - 6.0).abs() < 1e-10);
}

#[test]
fn test_push_overflow_evicts_oldest() {
    let mut buf = RingWindow::new(3);
    assert_eq!(buf.push(1.0), None);
    assert_eq!(buf.push(2.0), None);
    assert_eq!(buf.push(3.0), None);
    assert_eq!(buf.push(4.0), Some(1.0));
    assert_eq!(buf.to_vec(), vec![2.0, 3.0, 4.0]);
    assert!((sum(&buf) - 9.0).abs() < 1e-10);
}

#[test]
fn test_multiple_overflows() {
    let mut buf = RingWindow::new(3);
    for v in [1.0, 2.0, 3.0, 4.0, 5.0, 6.0] {
        buf.push(v);
    }
    assert_eq!(buf.to_vec(), vec![4.0, 5.0, 6.0]);
    assert!((sum(&buf) - 15.0).abs() < 1e-10);
}

#[test]
fn test_zero_capacity() {
    let mut buf = RingWindow::new(0);
    assert_eq!(buf.push(10.0), None);
    assert!(buf.is_empty());
}

#[test]
fn test_negative_values() {
    let mut buf = RingWindow::new(3);
    buf.push(-1.0);
    buf.push(2.0);
    buf.push(-3.0);
    assert!((sum(&buf) - -2.0).abs() < 1e-10);
    buf.push(4.0);
    assert!((sum(&buf) - 3.0).abs() < 1e-10);
}

#[test]
fn test_window_holds_last_values_in_order() {
    let mut buf = RingWindow::new(4);
    for i in 0..11u64 {
        buf.push(i);
        let lo = if i >= 3 { i - 3 } else { 0 };
        assert_eq!(buf.to_vec(), (lo..=i).collect::<Vec<u64>>());
    }
    assert_eq!(buf.capacity(), 4);
}

#[test]
fn test_window_clone_is_independent() {
    let mut a = RingWindow::new(2);
    a.push(1i32);
    a.push(2);
    a.push(3);
    let mut b = a.clone();
    b.push(4);
    assert_eq!(a.to_vec(), vec![2, 3]);
    assert_eq!(b.to_vec(), vec![3, 4]);
}
