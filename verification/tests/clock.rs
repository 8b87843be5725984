use ng_core::clock::{Deadline, Timeout, Timestamp, NANOS_PER_SEC};

#[test]
fn timeout_counts_nanoseconds() {
    assert_eq!(NANOS_PER_SEC, 1_000_000_000);
    assert_eq!(Timeout { secs: 0, nanos: 0 }.total_nanos(), 0);
    assert_eq!(Timeout { secs: 2, nanos: 500 }.total_nanos(), 2_000_000_500);
    assert_eq!(
        Timeout { secs: u64::MAX, nanos: u32::MAX }.total_nanos(),
        u64::MAX as u128 * 1_000_000_000 + u32::MAX as u128
    );
}

#[test]
fn timeout_from_millis() {
    assert_eq!(Timeout::from_millis(0), Timeout { secs: 0, nanos: 0 });
    assert_eq!(Timeout::from_millis(100), Timeout { secs: 0, nanos: 100_000_000 });
    assert_eq!(Timeout::from_millis(1999), Timeout { secs: 1, nanos: 999_000_000 });
    assert_eq!(Timeout::from_millis(u64::MAX).total_nanos(), u64::MAX as u128 * 1_000_000);
}

#[test]
fn deadline_is_now_plus_timeout() {
    let d = Deadline::after(Timestamp { nanos: 1_500 }, Timeout { secs: 1, nanos: 250 });
    assert_eq!(d, Some(Deadline { at: Timestamp { nanos: 1_000_001_750 } }));
    let zero = Deadline::after(Timestamp { nanos: 9 }, Timeout { secs: 0, nanos: 0 });
    assert_eq!(zero, Some(Deadline { at: Timestamp { nanos: 9 } }));
}

#[test]
fn deadline_beyond_the_clock_is_none() {
    assert_eq!(Deadline::after(Timestamp { nanos: u128::MAX }, Timeout { secs: 0, nanos: 1 }), None);
    assert_eq!(
        Deadline::after(Timestamp { nanos: u128::MAX - 1 }, Timeout { secs: 0, nanos: 1 }),
        Some(Deadline { at: Timestamp { nanos: u128::MAX } })
    );
}
