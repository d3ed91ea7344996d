use frost_tune::device::{Device, DeviceCapabilities};
use frost_tune::eq::FilterType;
use frost_tune::payload::{
    check_band, check_payload, clamp_band_fields, clamp_global_gain, compare_readback, fit_bands, BandCheck, BandFields,
    BandReadback, PayloadFault, ReadbackMismatch,
};

fn caps_without_per_band_enable(num_bands: usize) -> DeviceCapabilities {
    DeviceCapabilities { num_bands, supports_per_band_enable: false, ..Device::Unknown.capabilities() }
}

fn band(index: u8, enabled: bool, freq: u16, gain_neutral: bool) -> BandCheck {
    BandCheck {
        index,
        enabled,
        freq,
        filter_type: FilterType::Peak,
        gain_finite: true,
        q_finite: true,
        gain_in_range: true,
        q_in_range: true,
        gain_neutral,
    }
}

#[test]
fn new_validated_zeroes_disabled_band_gain_when_hardware_lacks_enable_bit() {
    let caps = caps_without_per_band_enable(1);
    // A disabled band at the default frequency of position 0 with gain 4.5.
    let (freq, neutral) = clamp_band_fields(31, false, &caps);
    assert_eq!(freq, 31);
    assert!(neutral, "disabled bands should be represented as neutral writes");
    // The gain written is then zero, which passes the check.
    let bands = vec![band(0, false, freq, true)];
    assert_eq!(check_payload(&bands, clamp_global_gain(Some(0), &caps), &caps), Ok(()));
}

#[test]
fn is_valid_accepts_neutral_disabled_band_when_hardware_lacks_enable_bit() {
    let caps = caps_without_per_band_enable(1);
    let bands = vec![band(0, false, 31, true)];
    assert!(check_payload(&bands, Some(0), &caps).is_ok());
}

#[test]
fn disabled_band_with_gain_is_refused_without_enable_bit() {
    let caps = caps_without_per_band_enable(1);
    let bands = vec![band(3, false, 31, false)];
    assert_eq!(check_payload(&bands, None, &caps), Err(PayloadFault::DisabledWithGain { index: 3 }));
    // With an enable bit the same band is fine.
    let with_bit = DeviceCapabilities { num_bands: 1, ..Device::Unknown.capabilities() };
    assert_eq!(check_payload(&bands, None, &with_bit), Ok(()));
}

#[test]
fn band_count_is_checked_first() {
    let caps = Device::TP35Pro.capabilities();
    let bands = vec![band(0, true, 5, true)];
    assert_eq!(check_payload(&bands, Some(100), &caps), Err(PayloadFault::BandCount { expected: 10, got: 1 }));
}

#[test]
fn faults_come_in_band_order() {
    let caps = Device::TP35Pro.capabilities();
    let mut bands: Vec<BandCheck> = (0..10).map(|i| band(i, true, 1000, true)).collect();
    bands[4].freq = 30000;
    bands[7].gain_finite = false;
    assert_eq!(check_payload(&bands, Some(0), &caps), Err(PayloadFault::FreqOutOfRange { index: 4, freq: 30000 }));
    bands[4].freq = 1000;
    assert_eq!(check_payload(&bands, Some(0), &caps), Err(PayloadFault::GainNotFinite { index: 7 }));
    bands[7].gain_finite = true;
    bands[2].q_in_range = false;
    assert_eq!(check_payload(&bands, Some(0), &caps), Err(PayloadFault::QOutOfRange { index: 2, band: 2 }));
    bands[2].q_in_range = true;
    bands[9].filter_type = FilterType::HighPass;
    assert_eq!(
        check_payload(&bands, Some(0), &caps),
        Err(PayloadFault::UnsupportedFilterType { index: 9, filter_type: FilterType::HighPass })
    );
    bands[9].filter_type = FilterType::HighShelf;
    assert_eq!(check_payload(&bands, Some(7), &caps), Err(PayloadFault::GlobalGainOutOfRange { gain: 7 }));
    assert_eq!(check_payload(&bands, Some(6), &caps), Ok(()));
    assert_eq!(check_payload(&bands, None, &caps), Ok(()));
}

#[test]
fn single_band_checks_in_field_order() {
    let caps = Device::TP35Pro.capabilities();
    let mut b = band(1, true, 10, true);
    b.q_finite = false;
    b.gain_in_range = false;
    assert_eq!(check_band(&b, 5, &caps), Some(PayloadFault::QNotFinite { index: 1 }));
    b.q_finite = true;
    assert_eq!(check_band(&b, 5, &caps), Some(PayloadFault::FreqOutOfRange { index: 1, freq: 10 }));
    b.freq = 100;
    assert_eq!(check_band(&b, 5, &caps), Some(PayloadFault::GainOutOfRange { index: 1, band: 5 }));
}

#[test]
fn clamping_fits_frequency_and_global_gain() {
    let caps = Device::TP35Pro.capabilities();
    assert_eq!(clamp_band_fields(5, true, &caps), (20, false));
    assert_eq!(clamp_band_fields(30000, true, &caps), (20000, false));
    assert_eq!(clamp_band_fields(440, false, &caps), (440, true));
    let unknown = Device::Unknown.capabilities();
    assert_eq!(clamp_band_fields(440, false, &unknown), (440, false));
    assert_eq!(clamp_global_gain(Some(-20), &caps), Some(-16));
    assert_eq!(clamp_global_gain(Some(9), &caps), Some(6));
    assert_eq!(clamp_global_gain(Some(-3), &caps), Some(-3));
    assert_eq!(clamp_global_gain(None, &caps), None);
}

#[test]
fn fitting_pads_cuts_and_neutralizes() {
    let caps = Device::TP35Pro.capabilities();
    let bands = vec![
        BandFields { index: 0, enabled: true, freq: 5, filter_type: FilterType::HighPass },
        BandFields { index: 1, enabled: false, freq: 30000, filter_type: FilterType::LowShelf },
    ];
    let fitted = fit_bands(&bands, &caps);
    assert_eq!(fitted.len(), 10);
    assert_eq!(fitted[0].fields.freq, 20);
    assert_eq!(fitted[0].fields.filter_type, FilterType::Peak);
    assert!(!fitted[0].zero_gain && !fitted[0].padded);
    assert_eq!(fitted[1].fields.freq, 20000);
    assert_eq!(fitted[1].fields.filter_type, FilterType::LowShelf);
    assert!(fitted[1].zero_gain);
    assert!(fitted[5].padded && fitted[5].zero_gain && !fitted[5].fields.enabled);
    assert_eq!(fitted[5].fields.index, 5);
    assert_eq!(fitted[5].fields.freq, 1000);
    let many: Vec<BandFields> =
        (0..12).map(|i| BandFields { index: i, enabled: true, freq: 100, filter_type: FilterType::Peak }).collect();
    let cut = fit_bands(&many, &caps);
    assert_eq!(cut.len(), 10);
    assert!(cut.iter().all(|b| !b.padded));
}

#[test]
fn readback_comparison_reports_first_mismatch() {
    let caps = Device::TP35Pro.capabilities();
    let ok = BandReadback {
        index: 0,
        written_freq: 100,
        read_freq: 101,
        written_type: FilterType::Peak,
        read_type: FilterType::Peak,
        gain_close: true,
        q_close: true,
    };
    let mut bands = vec![ok, BandReadback { index: 1, ..ok }];
    assert_eq!(compare_readback(Some(2), 2, 2, 2, &bands, &caps), Ok(()));
    assert_eq!(compare_readback(None, 7, 2, 2, &bands, &caps), Ok(()));
    assert_eq!(
        compare_readback(Some(2), 3, 2, 2, &bands, &caps),
        Err(ReadbackMismatch::GlobalGain { expected: 2, got: 3 })
    );
    assert_eq!(compare_readback(None, 3, 2, 1, &bands, &caps), Err(ReadbackMismatch::FilterCount { expected: 2, got: 1 }));
    bands[1].read_freq = 98;
    bands[1].q_close = false;
    assert_eq!(
        compare_readback(None, 0, 2, 2, &bands, &caps),
        Err(ReadbackMismatch::Freq { index: 1, expected: 100, got: 98 })
    );
    bands[1].read_freq = 99;
    assert_eq!(compare_readback(None, 0, 2, 2, &bands, &caps), Err(ReadbackMismatch::Q { index: 1, band: 1 }));
    bands[0].gain_close = false;
    assert_eq!(compare_readback(None, 0, 2, 2, &bands, &caps), Err(ReadbackMismatch::Gain { index: 0, band: 0 }));
    bands[0].gain_close = true;
    bands[1].q_close = true;
    bands[1].read_type = FilterType::HighShelf;
    assert_eq!(compare_readback(None, 0, 2, 2, &bands, &caps), Err(ReadbackMismatch::FilterType { index: 1 }));
}
