use frost_tune::eq::FilterType;
use frost_tune::session::{
    assemble_filters, build_report_frame, report_payload, validate_filter_reads, DeviceSession,
};
use frost_tune::tp35pro::FilterWords;

fn band(index: u8) -> FilterWords {
    FilterWords { index, enabled: true, freq: 1000, q_word: 256, gain_word: 0, filter_type: FilterType::Peak }
}

#[test]
fn validation_helper_rejects_missing_filters_only_in_strict_mode() {
    assert!(validate_filter_reads(false, true).is_ok());
    assert!(validate_filter_reads(true, false).is_ok());
    assert!(validate_filter_reads(true, true).is_err());
}

#[test]
fn non_strict_reads_allow_missing_filters() {
    let results: Vec<Option<FilterWords>> = vec![Some(band(0)), None, Some(band(2))];
    let filters = assemble_filters(3, results);

    assert_eq!(filters.len(), 3);
    assert!(filters[0].enabled);
    assert!(!filters[1].enabled);
    assert!(filters[2].enabled);
}

#[test]
fn assemble_pads_with_neutral_bands() {
    let filters = assemble_filters(4, vec![Some(band(0))]);
    assert_eq!(filters.len(), 4);
    assert_eq!(filters[3].index, 3);
    assert_eq!(filters[3].freq, 250);
    assert!(!filters[3].enabled);
}

#[test]
fn nonces_skip_zero() {
    let mut s = DeviceSession::new();
    let mut seen = Vec::new();
    for _ in 0..300 {
        let n = s.next_nonce();
        assert_ne!(n, 0);
        seen.push(n);
    }
    assert_eq!(seen[0], 1);
    assert_eq!(seen[254], 255);
    assert_eq!(seen[255], 1);
}

#[test]
fn report_frame_and_payload() {
    let frame = build_report_frame(&[1, 2, 3], 0x4B);
    assert_eq!(frame.len(), 65);
    assert_eq!(&frame[..4], &[0x4B, 1, 2, 3]);
    assert!(frame[4..].iter().all(|b| *b == 0));
    assert_eq!(report_payload(&[0x4B, 9, 8], 3, 0x4B), vec![9, 8]);
    assert_eq!(report_payload(&[7, 9, 8], 2, 0x4B), vec![7, 9]);
}

#[test]
fn mod_test_default_filter_has_correct_index() {
    for i in 0..10 {
        let filter = frost_tune::session::default_band(i, true);
        assert_eq!(filter.index, i as u8);
    }
}

#[test]
fn models_test_default_filter_has_correct_index() {
    for i in 0..10u8 {
        let filter = frost_tune::session::default_band(i, true);
        assert_eq!(filter.index, i);
        assert!(filter.enabled);
        assert_eq!(filter.gain_word, 0);
        assert_eq!(filter.q_word, 256);
    }
    assert_eq!(frost_tune::session::default_band(0, true).freq, 31);
    assert_eq!(frost_tune::session::default_band(9, false).freq, 16000);
    assert_eq!(frost_tune::session::default_band(10, true).freq, 1000);
}
