//! Supported USB DACs: their USB identifiers, names and the integer part of
//! their EQ capabilities, plus the registry that resolves a VID/PID pair.
use crate::eq::{filter_type_bit, FilterType, FilterTypeFlags};
use vstd::prelude::*;
use vstd::string::StringExecFns;

verus! {

/// A USB device as seen by discovery.
#[derive(Debug)]
pub struct DeviceInfo {
    pub vendor_id: u16,
    pub product_id: u16,
    pub path: String,
    pub manufacturer: Option<String>,
}

impl Clone for DeviceInfo {
    fn clone(&self) -> (d: DeviceInfo)
        ensures
            d == *self,
    {
        let manufacturer = match &self.manufacturer {
            Some(m) => Some(m.clone()),
            None => None,
        };
        DeviceInfo {
            vendor_id: self.vendor_id,
            product_id: self.product_id,
            path: self.path.clone(),
            manufacturer,
        }
    }
}

/// The integer-valued EQ limits of a device. (Gain and Q limits, which are
/// real numbers, are kept by the application alongside.)
#[derive(Debug, Clone, Copy)]
pub struct DeviceCapabilities {
    pub num_bands: usize,
    pub global_gain_range: (i8, i8),
    pub freq_range: (u16, u16),
    pub supported_filter_types: FilterTypeFlags,
    pub supports_per_band_enable: bool,
    pub freq_tolerance: i32,
}

/// The set of all five filter types.
pub open spec fn all_filter_type_bits() -> u8 {
    31
}

/// The set of the peak and shelf filter types.
pub open spec fn peak_and_shelf_bits() -> u8 {
    7
}

fn all_filter_types() -> (f: FilterTypeFlags)
    ensures
        f.bits == all_filter_type_bits(),
{
    let f = FilterTypeFlags::of(FilterType::Peak).union(FilterTypeFlags::of(FilterType::LowShelf)).union(
        FilterTypeFlags::of(FilterType::HighShelf),
    ).union(FilterTypeFlags::of(FilterType::LowPass)).union(
        FilterTypeFlags::of(FilterType::HighPass),
    );
    assert(1u8 | 2u8 | 4u8 | 8u8 | 16u8 == 31u8) by (bit_vector);
    f
}

fn peak_and_shelf_types() -> (f: FilterTypeFlags)
    ensures
        f.bits == peak_and_shelf_bits(),
{
    let f = FilterTypeFlags::of(FilterType::Peak).union(FilterTypeFlags::of(FilterType::LowShelf)).union(
        FilterTypeFlags::of(FilterType::HighShelf),
    );
    assert(1u8 | 2u8 | 4u8 == 7u8) by (bit_vector);
    f
}

/// The devices with a built-in protocol, and everything else.
#[derive(Debug, Clone, Copy, PartialEq, Eq, Structural)]
pub enum Device {
    TP35Pro,
    Unknown,
}

/// USB vendor ID of the EPZ TP35 Pro.
pub const TP35_VENDOR_ID: u16 = 0x3302;

/// USB product ID of the EPZ TP35 Pro.
pub const TP35_PRODUCT_ID: u16 = 0x43E6;

/// The capabilities of each `Device`.
pub open spec fn device_capabilities(d: Device) -> DeviceCapabilities {
    match d {
        Device::TP35Pro => DeviceCapabilities {
            num_bands: 10,
            global_gain_range: (-16i8, 6i8),
            freq_range: (20u16, 20000u16),
            supported_filter_types: FilterTypeFlags { bits: peak_and_shelf_bits() },
            supports_per_band_enable: false,
            freq_tolerance: 1,
        },
        Device::Unknown => DeviceCapabilities {
            num_bands: 10,
            global_gain_range: (-10i8, 10i8),
            freq_range: (20u16, 20000u16),
            supported_filter_types: FilterTypeFlags { bits: all_filter_type_bits() },
            supports_per_band_enable: true,
            freq_tolerance: 1,
        },
    }
}

/// The device a vendor/product ID pair identifies.
pub open spec fn device_of_ids(vid: u16, pid: u16) -> Device {
    if vid == TP35_VENDOR_ID && pid == TP35_PRODUCT_ID {
        Device::TP35Pro
    } else {
        Device::Unknown
    }
}

/// The USB vendor ID of a device (0 for an unknown device).
pub open spec fn device_vendor_id(d: Device) -> u16 {
    match d {
        Device::TP35Pro => TP35_VENDOR_ID,
        Device::Unknown => 0u16,
    }
}

/// The USB product ID of a device (0 for an unknown device).
pub open spec fn device_product_id(d: Device) -> u16 {
    match d {
        Device::TP35Pro => TP35_PRODUCT_ID,
        Device::Unknown => 0u16,
    }
}

impl Device {
    /// Identifies a device from its USB vendor and product IDs.
    pub fn from_vid_pid(vid: u16, pid: u16) -> (d: Device)
        ensures
            d == device_of_ids(vid, pid),
    {
        if vid == TP35_VENDOR_ID && pid == TP35_PRODUCT_ID {
            Device::TP35Pro
        } else {
            Device::Unknown
        }
    }

    /// The USB vendor ID (0 for an unknown device).
    pub fn vendor_id(&self) -> (v: u16)
        ensures
            v == device_vendor_id(*self),
    {
        match self {
            Device::TP35Pro => TP35_VENDOR_ID,
            Device::Unknown => 0,
        }
    }

    /// The USB product ID (0 for an unknown device).
    pub fn product_id(&self) -> (p: u16)
        ensures
            p == device_product_id(*self),
    {
        match self {
            Device::TP35Pro => TP35_PRODUCT_ID,
            Device::Unknown => 0,
        }
    }

    /// The display name.
    pub fn name(&self) -> (s: &'static str)
        ensures
            s@ == (match *self {
                Device::TP35Pro => "EPZ TP35 Pro"@,
                Device::Unknown => "Unknown Device"@,
            }),
    {
        match self {
            Device::TP35Pro => "EPZ TP35 Pro",
            Device::Unknown => "Unknown Device",
        }
    }

    /// The integer part of the capability profile.
    pub fn capabilities(&self) -> (c: DeviceCapabilities)
        ensures
            c == device_capabilities(*self),
    {
        match self {
            Device::TP35Pro => DeviceCapabilities {
                num_bands: 10,
                global_gain_range: (-16i8, 6i8),
                freq_range: (20u16, 20000u16),
                supported_filter_types: peak_and_shelf_types(),
                supports_per_band_enable: false,
                freq_tolerance: 1,
            },
            Device::Unknown => DeviceCapabilities {
                num_bands: 10,
                global_gain_range: (-10i8, 10i8),
                freq_range: (20u16, 20000u16),
                supported_filter_types: all_filter_types(),
                supports_per_band_enable: true,
                freq_tolerance: 1,
            },
        }
    }
}

/// Every device is identified again from its own vendor and product IDs.
pub proof fn lemma_device_ids_roundtrip(d: Device)
    ensures
        device_of_ids(device_vendor_id(d), device_product_id(d)) == d,
{
}

/// The EPZ TP35 Pro profile.
pub struct TP35ProProfile;

/// The Moondrop Dawn Pro profile.
pub struct DawnProProfile;

/// The Truthear KEYX profile.
pub struct TruthearKeyxProfile;

/// The profiles in the registry.
#[derive(Debug, Clone, Copy, PartialEq, Eq, Structural)]
pub enum SupportedProfile {
    TP35Pro,
    DawnPro,
    TruthearKeyx,
}

/// USB vendor ID of each profile.
pub open spec fn profile_vendor_id(p: SupportedProfile) -> u16 {
    match p {
        SupportedProfile::TP35Pro => 0x3302,
        SupportedProfile::DawnPro => 0x2FC6,
        SupportedProfile::TruthearKeyx => 0x0D8C,
    }
}

/// USB product ID of each profile.
pub open spec fn profile_product_id(p: SupportedProfile) -> u16 {
    match p {
        SupportedProfile::TP35Pro => 0x43E6,
        SupportedProfile::DawnPro => 0xDF30,
        SupportedProfile::TruthearKeyx => 0x0210,
    }
}

/// Display name of each profile.
pub open spec fn profile_name(p: SupportedProfile) -> Seq<char> {
    match p {
        SupportedProfile::TP35Pro => "EPZ TP35 Pro"@,
        SupportedProfile::DawnPro => "Moondrop Dawn Pro"@,
        SupportedProfile::TruthearKeyx => "Truthear KEYX"@,
    }
}

/// Capabilities of each profile.
pub open spec fn profile_capabilities(p: SupportedProfile) -> DeviceCapabilities {
    match p {
        SupportedProfile::TP35Pro => DeviceCapabilities {
            num_bands: 10,
            global_gain_range: (-16i8, 6i8),
            freq_range: (20u16, 20000u16),
            supported_filter_types: FilterTypeFlags { bits: all_filter_type_bits() },
            supports_per_band_enable: false,
            freq_tolerance: 1,
        },
        _ => DeviceCapabilities {
            num_bands: 8,
            global_gain_range: (-20i8, 0i8),
            freq_range: (20u16, 20000u16),
            supported_filter_types: FilterTypeFlags { bits: peak_and_shelf_bits() },
            supports_per_band_enable: false,
            freq_tolerance: 1,
        },
    }
}

impl SupportedProfile {
    /// The display name.
    pub fn name(&self) -> (s: &'static str)
        ensures
            s@ == profile_name(*self),
    {
        match self {
            SupportedProfile::TP35Pro => "EPZ TP35 Pro",
            SupportedProfile::DawnPro => "Moondrop Dawn Pro",
            SupportedProfile::TruthearKeyx => "Truthear KEYX",
        }
    }

    /// The USB vendor ID.
    pub fn vendor_id(&self) -> (v: u16)
        ensures
            v == profile_vendor_id(*self),
    {
        match self {
            SupportedProfile::TP35Pro => 0x3302,
            SupportedProfile::DawnPro => 0x2FC6,
            SupportedProfile::TruthearKeyx => 0x0D8C,
        }
    }

    /// The USB product ID.
    pub fn product_id(&self) -> (p: u16)
        ensures
            p == profile_product_id(*self),
    {
        match self {
            SupportedProfile::TP35Pro => 0x43E6,
            SupportedProfile::DawnPro => 0xDF30,
            SupportedProfile::TruthearKeyx => 0x0210,
        }
    }

    /// The integer part of the capability profile.
    pub fn capabilities(&self) -> (c: DeviceCapabilities)
        ensures
            c == profile_capabilities(*self),
    {
        match self {
            SupportedProfile::TP35Pro => DeviceCapabilities {
                num_bands: 10,
                global_gain_range: (-16i8, 6i8),
                freq_range: (20u16, 20000u16),
                supported_filter_types: all_filter_types(),
                supports_per_band_enable: false,
                freq_tolerance: 1,
            },
            _ => DeviceCapabilities {
                num_bands: 8,
                global_gain_range: (-20i8, 0i8),
                freq_range: (20u16, 20000u16),
                supported_filter_types: peak_and_shelf_types(),
                supports_per_band_enable: false,
                freq_tolerance: 1,
            },
        }
    }
}

impl TP35ProProfile {
    pub fn name(&self) -> (s: &'static str)
        ensures
            s@ == profile_name(SupportedProfile::TP35Pro),
    {
        SupportedProfile::TP35Pro.name()
    }

    pub fn vendor_id(&self) -> (v: u16)
        ensures
            v == profile_vendor_id(SupportedProfile::TP35Pro),
    {
        SupportedProfile::TP35Pro.vendor_id()
    }

    pub fn product_id(&self) -> (p: u16)
        ensures
            p == profile_product_id(SupportedProfile::TP35Pro),
    {
        SupportedProfile::TP35Pro.product_id()
    }

    pub fn capabilities(&self) -> (c: DeviceCapabilities)
        ensures
            c == profile_capabilities(SupportedProfile::TP35Pro),
    {
        SupportedProfile::TP35Pro.capabilities()
    }
}

impl DawnProProfile {
    pub fn name(&self) -> (s: &'static str)
        ensures
            s@ == profile_name(SupportedProfile::DawnPro),
    {
        SupportedProfile::DawnPro.name()
    }

    pub fn vendor_id(&self) -> (v: u16)
        ensures
            v == profile_vendor_id(SupportedProfile::DawnPro),
    {
        SupportedProfile::DawnPro.vendor_id()
    }

    pub fn product_id(&self) -> (p: u16)
        ensures
            p == profile_product_id(SupportedProfile::DawnPro),
    {
        SupportedProfile::DawnPro.product_id()
    }

    pub fn capabilities(&self) -> (c: DeviceCapabilities)
        ensures
            c == profile_capabilities(SupportedProfile::DawnPro),
    {
        SupportedProfile::DawnPro.capabilities()
    }
}

impl TruthearKeyxProfile {
    pub fn name(&self) -> (s: &'static str)
        ensures
            s@ == profile_name(SupportedProfile::TruthearKeyx),
    {
        SupportedProfile::TruthearKeyx.name()
    }

    pub fn vendor_id(&self) -> (v: u16)
        ensures
            v == profile_vendor_id(SupportedProfile::TruthearKeyx),
    {
        SupportedProfile::TruthearKeyx.vendor_id()
    }

    pub fn product_id(&self) -> (p: u16)
        ensures
            p == profile_product_id(SupportedProfile::TruthearKeyx),
    {
        SupportedProfile::TruthearKeyx.product_id()
    }

    pub fn capabilities(&self) -> (c: DeviceCapabilities)
        ensures
            c == profile_capabilities(SupportedProfile::TruthearKeyx),
    {
        SupportedProfile::TruthearKeyx.capabilities()
    }
}

/// The registry, in lookup order.
pub open spec fn registry() -> Seq<SupportedProfile> {
    seq![SupportedProfile::TP35Pro, SupportedProfile::DawnPro, SupportedProfile::TruthearKeyx]
}

/// Lists every supported profile, in registry order.
pub fn list_profiles() -> (v: Vec<SupportedProfile>)
    ensures
        v@ == registry(),
{
    let v = vec![SupportedProfile::TP35Pro, SupportedProfile::DawnPro, SupportedProfile::TruthearKeyx];
    assert(v@ == registry());
    v
}

/// Resolves the first registry profile with the given vendor and product IDs.
pub fn get_profile(vid: u16, pid: u16) -> (r: Option<SupportedProfile>)
    ensures
        match r {
            Some(p) => exists|i: int|
                0 <= i < registry().len() && registry()[i] == p && profile_vendor_id(p) == vid
                    && profile_product_id(p) == pid && forall|j: int|
                    0 <= j < i ==> !(profile_vendor_id(#[trigger] registry()[j]) == vid
                        && profile_product_id(registry()[j]) == pid),
            None => forall|i: int|
                0 <= i < registry().len() ==> !(profile_vendor_id(#[trigger] registry()[i]) == vid
                    && profile_product_id(registry()[i]) == pid),
        },
{
    let profiles = list_profiles();
    let mut i: usize = 0;
    while i < profiles.len()
        invariant
            profiles@ == registry(),
            i <= profiles.len(),
            forall|j: int|
                0 <= j < i ==> !(profile_vendor_id(#[trigger] registry()[j]) == vid
                    && profile_product_id(registry()[j]) == pid),
        decreases profiles.len() - i,
    {
        let p = profiles[i];
        if p.vendor_id() == vid && p.product_id() == pid {
            return Some(p);
        }
        i = i + 1;
    }
    None
}

/// Every registry profile is found again from its own IDs.
pub proof fn lemma_registry_lookup_finds_each_profile(p: SupportedProfile)
    ensures
        forall|i: int|
            0 <= i < registry().len() && profile_vendor_id(#[trigger] registry()[i])
                == profile_vendor_id(p) && profile_product_id(registry()[i]) == profile_product_id(
                p,
            ) ==> registry()[i] == p,
{
}

/// Every supported filter type of a profile is one its set holds.
pub proof fn lemma_tp35_profile_supports_all_types(ft: FilterType)
    ensures
        profile_capabilities(SupportedProfile::TP35Pro).supported_filter_types.spec_supports(ft),
{
    let m = filter_type_bit(ft);
    assert(m == 1 || m == 2 || m == 4 || m == 8 || m == 16);
    assert((m == 1u8 || m == 2u8 || m == 4u8 || m == 8u8 || m == 16u8) ==> 31u8 & m != 0)
        by (bit_vector);
}

} // verus!
