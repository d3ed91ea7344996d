use frost_tune::retry::{backoff_elapsed, saturating_mul, saturating_pow2};

#[test]
fn pow2_saturates() {
    assert_eq!(saturating_pow2(0), 1);
    assert_eq!(saturating_pow2(10), 1024);
    assert_eq!(saturating_pow2(63), 1u64 << 63);
    assert_eq!(saturating_pow2(64), u64::MAX);
    assert_eq!(saturating_pow2(1000), u64::MAX);
    assert_eq!(saturating_mul(u64::MAX, 2), u64::MAX);
    assert_eq!(saturating_mul(3, 7), 21);
}

#[test]
fn backoff_caps_at_max() {
    assert!(backoff_elapsed(5, None, 30));
    assert!(!backoff_elapsed(5, Some(29_999), 30));
    assert!(backoff_elapsed(5, Some(30_000), 30));
    assert!(backoff_elapsed(1, Some(2_000), 30));
    assert!(!backoff_elapsed(1, Some(1_999), 30));
}
