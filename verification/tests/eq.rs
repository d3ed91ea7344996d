use frost_tune::eq::{snap_freq_to_iso, FilterType, FilterTypeFlags};

#[test]
fn mod_test_snap_freq_to_iso() {
    assert_eq!(snap_freq_to_iso(100), 100);
    assert_eq!(snap_freq_to_iso(101), 100);
    assert_eq!(snap_freq_to_iso(99), 100);
    assert_eq!(snap_freq_to_iso(150), 160);
    assert_eq!(snap_freq_to_iso(15), 20);
}

#[test]
fn models_test_snap_freq_to_iso() {
    assert_eq!(snap_freq_to_iso(100), 100);
    assert_eq!(snap_freq_to_iso(101), 100);
    assert_eq!(snap_freq_to_iso(99), 100);
    assert_eq!(snap_freq_to_iso(150), 160);
    assert_eq!(snap_freq_to_iso(15), 20);
}

#[test]
fn snap_freq_ties_and_extremes() {
    assert_eq!(snap_freq_to_iso(0), 20);
    assert_eq!(snap_freq_to_iso(65535), 20000);
    assert_eq!(snap_freq_to_iso(225), 200);
    assert_eq!(snap_freq_to_iso(1125), 1000);
}

#[test]
fn filter_type_byte_roundtrip() {
    for ft in [FilterType::LowShelf, FilterType::Peak, FilterType::HighShelf, FilterType::HighPass, FilterType::LowPass] {
        assert_eq!(FilterType::from_byte(ft.to_byte()), ft);
    }
    assert_eq!(FilterType::from_byte(0), FilterType::Peak);
    assert_eq!(FilterType::from_byte(9), FilterType::Peak);
    assert_eq!(u8::from(FilterType::LowShelf), 1);
    assert_eq!(FilterType::from(5u8), FilterType::LowPass);
}

#[test]
fn filter_type_flags_union_supports_both() {
    let f = FilterTypeFlags::of(FilterType::Peak).union(FilterTypeFlags::of(FilterType::LowPass));
    assert!(f.supports(FilterType::Peak));
    assert!(f.supports(FilterType::LowPass));
    assert!(!f.supports(FilterType::HighShelf));
}
