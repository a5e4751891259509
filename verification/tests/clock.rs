use huali_desktop::clock::{millis_or_zero, now_ms};

#[test]
fn millis_pass_through_or_zero() {
    assert_eq!(millis_or_zero(Ok(1_700_000_000_123)), 1_700_000_000_123);
    assert_eq!(millis_or_zero(Err(())), 0);
}

#[test]
fn clock_reads_after_2020() {
    assert!(now_ms() > 1_577_836_800_000);
}
