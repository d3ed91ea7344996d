use frost_tune::device::SupportedProfile;
use frost_tune::probe::{probe_profile, ProbeOptions};

#[test]
fn probe_finds_known_device() {
    let p = probe_profile(&ProbeOptions { vid: 0x3302, pid: 0x43E6, hex: false }).unwrap();
    assert_eq!(p, SupportedProfile::TP35Pro);
}

#[test]
fn probe_lists_known_devices_for_unknown_ids() {
    let e = probe_profile(&ProbeOptions { vid: 0xABCD, pid: 0x0001, hex: true }).unwrap_err();
    assert_eq!(
        e,
        "Device abcd:0001 is not in the supported registry. Known devices:\n  3302:43e6 (EPZ TP35 Pro)\n  2fc6:df30 (Moondrop Dawn Pro)\n  0d8c:0210 (Truthear KEYX)"
    );
}
