//! The rolling window's bound and eviction order.

use stockwatch::window::{RollingWindow, Sample};

#[test]
fn length_never_exceeds_capacity() {
    for cap in 1..=5usize {
        let mut w = RollingWindow::new();
        w.set_capacity(cap);
        for i in 1..=12u64 {
            w.push(Sample { index: i, price: i * 10_000 });
            assert!(w.length() <= w.capacity());
            assert_eq!(w.capacity(), cap);
        }
    }
}

#[test]
fn oldest_samples_are_evicted_first() {
    let mut w = RollingWindow::new();
    w.set_capacity(2);
    w.push(Sample { index: 1, price: 1_000_000 });
    w.push(Sample { index: 2, price: 1_020_000 });
    w.push(Sample { index: 3, price: 980_000 });
    assert_eq!(
        w.snapshot(),
        vec![
            Sample { index: 2, price: 1_020_000 },
            Sample { index: 3, price: 980_000 },
        ]
    );
}

#[test]
fn shrinking_capacity_evicts_down() {
    let mut w = RollingWindow::new();
    w.set_capacity(5);
    for i in 1..=5u64 {
        w.push(Sample { index: i, price: i });
    }
    w.set_capacity(2);
    assert_eq!(w.capacity(), 2);
    assert_eq!(
        w.snapshot(),
        vec![Sample { index: 4, price: 4 }, Sample { index: 5, price: 5 }]
    );
}

#[test]
fn zero_width_is_clamped_to_one() {
    let mut w = RollingWindow::new();
    w.set_capacity(0);
    assert_eq!(w.capacity(), 1);
    w.push(Sample { index: 1, price: 7 });
    w.push(Sample { index: 2, price: 8 });
    assert_eq!(w.snapshot(), vec![Sample { index: 2, price: 8 }]);
}
