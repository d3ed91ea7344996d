use frost_tune::timing::{ReadTiming, WriteTiming};

#[test]
fn test_write_timing_default() {
    let timing = WriteTiming::default();
    assert!(timing.per_filter_ms > 0);
    assert!(timing.batch_ms > 0);
    assert!(timing.commit_step_ms > 0);
}

#[test]
fn filter_step_is_larger_delay() {
    let t = WriteTiming::default();
    assert_eq!(t.filter_step_ms(), 20);
    assert_eq!(ReadTiming::default().read_timeout_ms, 60);
}
