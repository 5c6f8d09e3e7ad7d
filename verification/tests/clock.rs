use dejavu_similarity_api::clock::{millis_since_epoch, read_clock, ClockReading};

#[test]
fn clock_reads_after_the_epoch() {
    match read_clock() {
        ClockReading::After { secs, nanos } => {
            assert!(secs > 1_600_000_000);
            assert!(nanos < 1_000_000_000);
        }
        ClockReading::Before { .. } => panic!("this machine's clock stands after 1970"),
    }
}

#[test]
fn milliseconds_round_down() {
    assert_eq!(millis_since_epoch(&ClockReading::After { secs: 0, nanos: 0 }), Some(0));
    assert_eq!(millis_since_epoch(&ClockReading::After { secs: 1, nanos: 500_999_999 }), Some(1500));
    assert_eq!(millis_since_epoch(&ClockReading::After { secs: 1_700_000_000, nanos: 123_456_789 }), Some(1_700_000_000_123));
    assert_eq!(millis_since_epoch(&ClockReading::Before { secs: 1, nanos: 500_000_000 }), Some(-1500));
    assert_eq!(millis_since_epoch(&ClockReading::Before { secs: 0, nanos: 1 }), Some(-1));
    assert_eq!(millis_since_epoch(&ClockReading::Before { secs: 2, nanos: 0 }), Some(-2000));
    assert_eq!(millis_since_epoch(&ClockReading::Before { secs: 0, nanos: 0 }), Some(0));
}

#[test]
fn milliseconds_out_of_range() {
    assert_eq!(millis_since_epoch(&ClockReading::After { secs: u64::MAX, nanos: 0 }), None);
    assert_eq!(
        millis_since_epoch(&ClockReading::After { secs: 9_223_372_036_854_775, nanos: 807_999_999 }),
        Some(i64::MAX)
    );
    assert_eq!(millis_since_epoch(&ClockReading::After { secs: 9_223_372_036_854_775, nanos: 808_000_000 }), None);
    assert_eq!(
        millis_since_epoch(&ClockReading::Before { secs: 9_223_372_036_854_775, nanos: 808_000_000 }),
        Some(i64::MIN)
    );
    assert_eq!(millis_since_epoch(&ClockReading::Before { secs: 9_223_372_036_854_775, nanos: 808_000_001 }), None);
}
