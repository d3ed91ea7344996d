use frost_tune::device::{get_profile, list_profiles, DawnProProfile, Device, SupportedProfile, TP35ProProfile, TruthearKeyxProfile};

#[test]
fn test_dawn_pro_capabilities() {
    let profile = DawnProProfile;
    let caps = profile.capabilities();
    assert_eq!(caps.num_bands, 8);
    assert_eq!(profile.vendor_id(), 0x2FC6);
    assert_eq!(profile.product_id(), 0xDF30);
}

#[test]
fn test_keyx_capabilities() {
    let profile = TruthearKeyxProfile;
    let caps = profile.capabilities();
    assert_eq!(caps.num_bands, 8);
    assert_eq!(profile.vendor_id(), 0x0D8C);
    assert_eq!(profile.product_id(), 0x0210);
}

#[test]
fn registry_finds_each_profile_by_its_ids() {
    for p in list_profiles() {
        assert_eq!(get_profile(p.vendor_id(), p.product_id()), Some(p));
    }
    assert_eq!(get_profile(0x3302, 0x43E6), Some(SupportedProfile::TP35Pro));
    assert_eq!(get_profile(0x1234, 0x5678), None);
    assert_eq!(list_profiles().len(), 3);
}

#[test]
fn device_ids_roundtrip() {
    let d = Device::from_vid_pid(0x3302, 0x43E6);
    assert_eq!(d, Device::TP35Pro);
    assert_eq!(Device::from_vid_pid(d.vendor_id(), d.product_id()), d);
    assert_eq!(Device::from_vid_pid(1, 2), Device::Unknown);
    assert_eq!(TP35ProProfile.capabilities().num_bands, 10);
}
