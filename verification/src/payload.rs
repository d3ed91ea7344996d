//! Fitting EQ data to a device, checking a push before anything is written,
//! and comparing what the device reads back with what was written. The band
//! gain and Q are real numbers that the application clamps and compares; what
//! those comparisons found reaches this module as flags, and the integer
//! fields (band count, frequency, filter type, global gain) are clamped,
//! checked and compared here.
use crate::device::DeviceCapabilities;
use crate::eq::FilterType;
use crate::session::{default_band, default_band_freq};
use vstd::prelude::*;

verus! {

/// `x` clamped to `lo..=hi`.
pub open spec fn clamp_int(x: int, lo: int, hi: int) -> int {
    if x < lo {
        lo
    } else if x > hi {
        hi
    } else {
        x
    }
}

/// A band's frequency clamped to the device's range.
pub open spec fn clamped_freq(freq: u16, caps: DeviceCapabilities) -> int {
    clamp_int(freq as int, caps.freq_range.0 as int, caps.freq_range.1 as int)
}

/// Whether a band must be written with zero gain: the hardware has no
/// per-band enable bit and the band is disabled, so an audibly neutral band
/// stands for the switched-off slot.
pub open spec fn must_neutralize(enabled: bool, caps: DeviceCapabilities) -> bool {
    !caps.supports_per_band_enable && !enabled
}

/// The integer fields of a band after clamping: the frequency in the device's
/// range, and whether its gain is to be set to zero.
pub fn clamp_band_fields(freq: u16, enabled: bool, caps: &DeviceCapabilities) -> (r: (u16, bool))
    requires
        caps.freq_range.0 <= caps.freq_range.1,
    ensures
        r.0 == clamped_freq(freq, *caps),
        r.1 == must_neutralize(enabled, *caps),
        caps.freq_range.0 <= r.0 <= caps.freq_range.1,
        caps.freq_range.0 <= freq <= caps.freq_range.1 ==> r.0 == freq,
        freq < caps.freq_range.0 ==> r.0 == caps.freq_range.0,
        freq > caps.freq_range.1 ==> r.0 == caps.freq_range.1,
        r.1 <==> (!caps.supports_per_band_enable && !enabled),
{
    let f = if freq < caps.freq_range.0 {
        caps.freq_range.0
    } else if freq > caps.freq_range.1 {
        caps.freq_range.1
    } else {
        freq
    };
    (f, !caps.supports_per_band_enable && !enabled)
}

/// The requested global gain clamped to the device's range; no request
/// stays none.
pub fn clamp_global_gain(gain: Option<i8>, caps: &DeviceCapabilities) -> (r: Option<i8>)
    requires
        caps.global_gain_range.0 <= caps.global_gain_range.1,
    ensures
        match gain {
            Some(g) => r matches Some(c) && c == clamp_int(
                g as int,
                caps.global_gain_range.0 as int,
                caps.global_gain_range.1 as int,
            ),
            None => r is None,
        },
        match (gain, r) {
            (Some(g), Some(c)) => caps.global_gain_range.0 <= c <= caps.global_gain_range.1 && (
            caps.global_gain_range.0 <= g <= caps.global_gain_range.1 ==> c == g) && (g
                < caps.global_gain_range.0 ==> c == caps.global_gain_range.0) && (g
                > caps.global_gain_range.1 ==> c == caps.global_gain_range.1),
            (None, None) => true,
            _ => false,
        },
{
    match gain {
        Some(g) => {
            if g < caps.global_gain_range.0 {
                Some(caps.global_gain_range.0)
            } else if g > caps.global_gain_range.1 {
                Some(caps.global_gain_range.1)
            } else {
                Some(g)
            }
        },
        None => None,
    }
}

/// One band of a push as the check reads it: its integer fields, and what
/// the application found of its real gain and Q.
#[derive(Debug, Clone, Copy)]
pub struct BandCheck {
    pub index: u8,
    pub enabled: bool,
    pub freq: u16,
    pub filter_type: FilterType,
    /// The gain is a finite number.
    pub gain_finite: bool,
    /// The Q is a finite number.
    pub q_finite: bool,
    /// The gain lies in the device's band gain range.
    pub gain_in_range: bool,
    /// The Q lies in the device's Q range.
    pub q_in_range: bool,
    /// The gain is within 0.001 of zero.
    pub gain_neutral: bool,
}

/// Why a push is refused.
#[derive(Debug, Clone, Copy, PartialEq, Eq, Structural)]
pub enum PayloadFault {
    /// The number of bands is not the device's.
    BandCount { expected: usize, got: usize },
    GainNotFinite { index: u8 },
    QNotFinite { index: u8 },
    FreqOutOfRange { index: u8, freq: u16 },
    /// The gain of the band at position `band` is out of range.
    GainOutOfRange { index: u8, band: usize },
    /// The Q of the band at position `band` is out of range.
    QOutOfRange { index: u8, band: usize },
    UnsupportedFilterType { index: u8, filter_type: FilterType },
    /// A disabled band with non-zero gain on hardware without an enable bit.
    DisabledWithGain { index: u8 },
    GlobalGainOutOfRange { gain: i8 },
}

/// The first thing wrong with the band at position `band`, checked in this order: finite gain,
/// finite Q, frequency range, gain range, Q range, filter type, and a
/// disabled band's gain on hardware without an enable bit.
pub open spec fn band_fault(b: BandCheck, band: usize, caps: DeviceCapabilities) -> Option<PayloadFault> {
    if !b.gain_finite {
        Some(PayloadFault::GainNotFinite { index: b.index })
    } else if !b.q_finite {
        Some(PayloadFault::QNotFinite { index: b.index })
    } else if b.freq < caps.freq_range.0 || b.freq > caps.freq_range.1 {
        Some(PayloadFault::FreqOutOfRange { index: b.index, freq: b.freq })
    } else if !b.gain_in_range {
        Some(PayloadFault::GainOutOfRange { index: b.index, band })
    } else if !b.q_in_range {
        Some(PayloadFault::QOutOfRange { index: b.index, band })
    } else if !caps.supported_filter_types.spec_supports(b.filter_type) {
        Some(PayloadFault::UnsupportedFilterType { index: b.index, filter_type: b.filter_type })
    } else if must_neutralize(b.enabled, caps) && !b.gain_neutral {
        Some(PayloadFault::DisabledWithGain { index: b.index })
    } else {
        None
    }
}

/// The fault of the first faulty band at or after position `i`.
pub open spec fn first_band_fault(bands: Seq<BandCheck>, caps: DeviceCapabilities, i: int) -> Option<
    PayloadFault,
>
    decreases bands.len() - i,
{
    if i < 0 || i >= bands.len() {
        None
    } else {
        match band_fault(bands[i], i as usize, caps) {
            Some(f) => Some(f),
            None => first_band_fault(bands, caps, i + 1),
        }
    }
}

/// Whether the requested global gain is outside the device's range.
pub open spec fn global_gain_out_of_range(gain: Option<i8>, caps: DeviceCapabilities) -> bool {
    match gain {
        Some(g) => g < caps.global_gain_range.0 || g > caps.global_gain_range.1,
        None => false,
    }
}

/// The reason a push is refused, if it is: the band count first, then the
/// bands in order, then the global gain.
pub open spec fn payload_fault(
    bands: Seq<BandCheck>,
    global_gain: Option<i8>,
    caps: DeviceCapabilities,
) -> Option<PayloadFault> {
    if bands.len() != caps.num_bands {
        Some(PayloadFault::BandCount { expected: caps.num_bands, got: bands.len() as usize })
    } else {
        match first_band_fault(bands, caps, 0) {
            Some(f) => Some(f),
            None => if global_gain_out_of_range(global_gain, caps) {
                Some(PayloadFault::GlobalGainOutOfRange { gain: global_gain->0 })
            } else {
                None
            },
        }
    }
}

/// The fault of the band at position `band`, if any.
pub fn check_band(b: &BandCheck, band: usize, caps: &DeviceCapabilities) -> (r: Option<PayloadFault>)
    ensures
        r == band_fault(*b, band, *caps),
{
    if !b.gain_finite {
        Some(PayloadFault::GainNotFinite { index: b.index })
    } else if !b.q_finite {
        Some(PayloadFault::QNotFinite { index: b.index })
    } else if b.freq < caps.freq_range.0 || b.freq > caps.freq_range.1 {
        Some(PayloadFault::FreqOutOfRange { index: b.index, freq: b.freq })
    } else if !b.gain_in_range {
        Some(PayloadFault::GainOutOfRange { index: b.index, band })
    } else if !b.q_in_range {
        Some(PayloadFault::QOutOfRange { index: b.index, band })
    } else if !caps.supported_filter_types.supports(b.filter_type) {
        Some(PayloadFault::UnsupportedFilterType { index: b.index, filter_type: b.filter_type })
    } else if !caps.supports_per_band_enable && !b.enabled && !b.gain_neutral {
        Some(PayloadFault::DisabledWithGain { index: b.index })
    } else {
        None
    }
}

/// A band passes every check of a push: finite and in-range gain and Q, a
/// frequency in the device's range, a filter type the device supports, and,
/// on hardware without an enable bit, no gain on a disabled band.
pub open spec fn band_accepted(b: BandCheck, caps: DeviceCapabilities) -> bool {
    &&& b.gain_finite
    &&& b.q_finite
    &&& caps.freq_range.0 <= b.freq <= caps.freq_range.1
    &&& b.gain_in_range
    &&& b.q_in_range
    &&& caps.supported_filter_types.spec_supports(b.filter_type)
    &&& caps.supports_per_band_enable || b.enabled || b.gain_neutral
}

/// A push is accepted: as many bands as the device has, each accepted, and
/// a requested global gain within the device's range.
pub open spec fn push_accepted(bands: Seq<BandCheck>, global_gain: Option<i8>, caps: DeviceCapabilities) -> bool {
    &&& bands.len() == caps.num_bands
    &&& forall|i: int| 0 <= i < bands.len() ==> band_accepted(#[trigger] bands[i], caps)
    &&& global_gain matches Some(g) ==> caps.global_gain_range.0 <= g <= caps.global_gain_range.1
}

proof fn lemma_first_band_fault_none(bands: Seq<BandCheck>, caps: DeviceCapabilities, i: int)
    requires
        0 <= i <= bands.len(),
    ensures
        first_band_fault(bands, caps, i) is None <==> forall|j: int|
            i <= j < bands.len() ==> band_accepted(#[trigger] bands[j], caps),
    decreases bands.len() - i,
{
    if i < bands.len() {
        lemma_first_band_fault_none(bands, caps, i + 1);
        assert(band_fault(bands[i], i as usize, caps) is None <==> band_accepted(bands[i], caps));
    }
}

/// A push is refused exactly when it breaks one of the device's limits: it
/// is accepted when it has the device's band count, every band passes its
/// checks and the global gain, if any, lies in the device's range; and a
/// refusal names a band count, a band or a global gain that breaks them.
pub proof fn lemma_push_refused_iff_limits_broken(
    bands: Seq<BandCheck>,
    global_gain: Option<i8>,
    caps: DeviceCapabilities,
)
    ensures
        payload_fault(bands, global_gain, caps) is None <==> push_accepted(bands, global_gain, caps),
        payload_fault(bands, global_gain, caps) matches Some(PayloadFault::GlobalGainOutOfRange { gain })
            ==> global_gain == Some(gain) && !(caps.global_gain_range.0 <= gain
            <= caps.global_gain_range.1),
        payload_fault(bands, global_gain, caps) matches Some(PayloadFault::BandCount { expected, .. })
            ==> expected == caps.num_bands && bands.len() != caps.num_bands,
{
    lemma_first_band_fault_none(bands, caps, 0);
    lemma_band_faults_are_band_faults(bands, caps, 0);
}

proof fn lemma_band_faults_are_band_faults(bands: Seq<BandCheck>, caps: DeviceCapabilities, i: int)
    requires
        0 <= i <= bands.len(),
    ensures
        !(first_band_fault(bands, caps, i) matches Some(PayloadFault::GlobalGainOutOfRange { .. })),
        !(first_band_fault(bands, caps, i) matches Some(PayloadFault::BandCount { .. })),
    decreases bands.len() - i,
{
    if i < bands.len() {
        lemma_band_faults_are_band_faults(bands, caps, i + 1);
    }
}

/// Checks a push against the device: `Ok` exactly when nothing is wrong,
/// else the first fault.
pub fn check_payload(bands: &Vec<BandCheck>, global_gain: Option<i8>, caps: &DeviceCapabilities) -> (r:
    Result<(), PayloadFault>)
    ensures
        match payload_fault(bands@, global_gain, *caps) {
            None => r is Ok,
            Some(f) => r == Err::<(), PayloadFault>(f),
        },
        r is Ok <==> push_accepted(bands@, global_gain, *caps),
{
    proof {
        lemma_push_refused_iff_limits_broken(bands@, global_gain, *caps);
    }
    if bands.len() != caps.num_bands {
        return Err(PayloadFault::BandCount { expected: caps.num_bands, got: bands.len() });
    }
    let mut i: usize = 0;
    while i < bands.len()
        invariant
            i <= bands@.len(),
            bands@.len() == caps.num_bands,
            first_band_fault(bands@, *caps, 0) == first_band_fault(bands@, *caps, i as int),
        decreases bands@.len() - i,
    {
        match check_band(&bands[i], i, caps) {
            Some(f) => {
                return Err(f);
            },
            None => {},
        }
        i = i + 1;
    }
    match global_gain {
        Some(g) => {
            if g < caps.global_gain_range.0 || g > caps.global_gain_range.1 {
                return Err(PayloadFault::GlobalGainOutOfRange { gain: g });
            }
        },
        None => {},
    }
    Ok(())
}

/// Clamping makes a band's frequency and the global gain pass their range
/// checks, and a band that clamping neutralized passes the disabled-band
/// check.
pub proof fn lemma_clamped_fields_pass(
    freq: u16,
    b: BandCheck,
    band: usize,
    gain: Option<i8>,
    clamped_gain: Option<i8>,
    caps: DeviceCapabilities,
)
    requires
        caps.freq_range.0 <= caps.freq_range.1,
        caps.global_gain_range.0 <= caps.global_gain_range.1,
        b.freq == clamped_freq(freq, caps),
        must_neutralize(b.enabled, caps) ==> b.gain_neutral,
        match gain {
            Some(g) => clamped_gain matches Some(c) && c == clamp_int(
                g as int,
                caps.global_gain_range.0 as int,
                caps.global_gain_range.1 as int,
            ),
            None => clamped_gain is None,
        },
    ensures
        !(band_fault(b, band, caps) matches Some(PayloadFault::FreqOutOfRange { .. })),
        !(band_fault(b, band, caps) matches Some(PayloadFault::DisabledWithGain { .. })),
        !global_gain_out_of_range(clamped_gain, caps),
{
}

/// The integer fields of a band of EQ data.
#[derive(Debug, Clone, Copy, PartialEq, Eq, Structural)]
pub struct BandFields {
    pub index: u8,
    pub enabled: bool,
    pub freq: u16,
    pub filter_type: FilterType,
}

/// A band after fitting EQ data to a device.
#[derive(Debug, Clone, Copy, PartialEq, Eq, Structural)]
pub struct FittedBand {
    pub fields: BandFields,
    /// Its gain is to be set to zero (a disabled band on hardware without an
    /// enable bit).
    pub zero_gain: bool,
    /// The band was added to reach the device's band count; its gain and Q
    /// are those of a neutral band.
    pub padded: bool,
}

/// The disabled neutral band added at position `pos`.
pub open spec fn padding_band(pos: int) -> BandFields {
    BandFields {
        index: pos as u8,
        enabled: false,
        freq: default_band_freq(pos as u8),
        filter_type: FilterType::Peak,
    }
}

/// A band fitted to the device: frequency clamped, an unsupported filter type
/// replaced by a peak filter, and a disabled band neutralized on hardware
/// without an enable bit.
pub open spec fn fit_band(b: BandFields, padded: bool, caps: DeviceCapabilities) -> FittedBand {
    FittedBand {
        fields: BandFields {
            index: b.index,
            enabled: b.enabled,
            freq: clamped_freq(b.freq, caps) as u16,
            filter_type: if caps.supported_filter_types.spec_supports(b.filter_type) {
                b.filter_type
            } else {
                FilterType::Peak
            },
        },
        zero_gain: must_neutralize(b.enabled, caps),
        padded,
    }
}

/// The bands of EQ data fitted to the device: the first `num_bands` bands,
/// then disabled neutral bands up to `num_bands`, each fitted.
pub open spec fn fitted_bands(bands: Seq<BandFields>, caps: DeviceCapabilities) -> Seq<FittedBand> {
    Seq::new(
        caps.num_bands as nat,
        |i: int|
            if i < bands.len() {
                fit_band(bands[i], false, caps)
            } else {
                fit_band(padding_band(i), true, caps)
            },
    )
}

/// One band fitted to the device.
fn fit_one(b: BandFields, padded: bool, caps: &DeviceCapabilities) -> (r: FittedBand)
    requires
        caps.freq_range.0 <= caps.freq_range.1,
    ensures
        r == fit_band(b, padded, *caps),
{
    let (freq, zero_gain) = clamp_band_fields(b.freq, b.enabled, caps);
    let filter_type = if caps.supported_filter_types.supports(b.filter_type) {
        b.filter_type
    } else {
        FilterType::Peak
    };
    FittedBand {
        fields: BandFields { index: b.index, enabled: b.enabled, freq, filter_type },
        zero_gain,
        padded,
    }
}

/// Fitting keeps the bands in place and only adjusts them: there are as many
/// bands as the device has; band `i` of the input, when there is one, is
/// fitted band `i`, with its index and enabled flag, a frequency in the
/// device's range (unchanged when already in it), its filter type when the
/// device supports it and a peak filter otherwise; past the input come
/// disabled padding bands numbered by position; and exactly the disabled
/// bands on hardware without an enable bit get zero gain.
pub proof fn lemma_fitting_keeps_bands_in_place(bands: Seq<BandFields>, caps: DeviceCapabilities)
    requires
        caps.freq_range.0 <= caps.freq_range.1,
    ensures
        fitted_bands(bands, caps).len() == caps.num_bands,
        forall|i: int|
            0 <= i < caps.num_bands && i < bands.len() ==> {
                let f = #[trigger] fitted_bands(bands, caps)[i];
                &&& !f.padded
                &&& f.fields.index == bands[i].index
                &&& f.fields.enabled == bands[i].enabled
                &&& caps.freq_range.0 <= f.fields.freq <= caps.freq_range.1
                &&& (caps.freq_range.0 <= bands[i].freq <= caps.freq_range.1 ==> f.fields.freq
                    == bands[i].freq)
                &&& (bands[i].freq < caps.freq_range.0 ==> f.fields.freq == caps.freq_range.0)
                &&& (bands[i].freq > caps.freq_range.1 ==> f.fields.freq == caps.freq_range.1)
                &&& (caps.supported_filter_types.spec_supports(bands[i].filter_type)
                    ==> f.fields.filter_type == bands[i].filter_type)
                &&& (!caps.supported_filter_types.spec_supports(bands[i].filter_type)
                    ==> f.fields.filter_type == FilterType::Peak)
                &&& f.zero_gain == (!caps.supports_per_band_enable && !bands[i].enabled)
            },
        forall|i: int|
            bands.len() <= i < caps.num_bands ==> {
                let f = #[trigger] fitted_bands(bands, caps)[i];
                &&& f.padded
                &&& f.fields.index == i as u8
                &&& !f.fields.enabled
                &&& f.zero_gain == !caps.supports_per_band_enable
            },
{
}

/// Fits the bands of EQ data to the device: cut or padded to its band count,
/// frequencies clamped, unsupported filter types replaced by a peak filter,
/// and disabled bands neutralized on hardware without an enable bit.
pub fn fit_bands(bands: &Vec<BandFields>, caps: &DeviceCapabilities) -> (r: Vec<FittedBand>)
    requires
        caps.freq_range.0 <= caps.freq_range.1,
    ensures
        r@ == fitted_bands(bands@, *caps),
        r@.len() == caps.num_bands,
        forall|i: int|
            0 <= i < caps.num_bands && i < bands@.len() ==> (#[trigger] r@[i]).fields.index
                == bands@[i].index && r@[i].fields.enabled == bands@[i].enabled && !r@[i].padded,
        forall|i: int|
            bands@.len() <= i < caps.num_bands ==> (#[trigger] r@[i]).padded && r@[i].fields.index
                == i as u8 && !r@[i].fields.enabled,
{
    proof {
        lemma_fitting_keeps_bands_in_place(bands@, *caps);
    }
    let mut out: Vec<FittedBand> = Vec::new();
    let mut i: usize = 0;
    while i < caps.num_bands
        invariant
            caps.freq_range.0 <= caps.freq_range.1,
            i <= caps.num_bands,
            out@.len() == i,
            forall|j: int| 0 <= j < i ==> #[trigger] out@[j] == fitted_bands(bands@, *caps)[j],
        decreases caps.num_bands - i,
    {
        let f = if i < bands.len() {
            fit_one(bands[i], false, caps)
        } else {
            #[verifier::truncate]
            let pos = i as u8;
            let d = default_band(pos, false);
            fit_one(
                BandFields { index: pos, enabled: false, freq: d.freq, filter_type: FilterType::Peak },
                true,
                caps,
            )
        };
        out.push(f);
        i = i + 1;
    }
    assert(out@ =~= fitted_bands(bands@, *caps));
    out
}

/// One band compared after a write: the frequencies and filter types
/// written and read back, and whether the real gain and Q read back lie
/// within the device's tolerances of those written.
#[derive(Debug, Clone, Copy)]
pub struct BandReadback {
    pub index: u8,
    pub written_freq: u16,
    pub read_freq: u16,
    pub written_type: FilterType,
    pub read_type: FilterType,
    pub gain_close: bool,
    pub q_close: bool,
}

/// Why a read-back does not match what was written.
#[derive(Debug, Clone, Copy, PartialEq, Eq, Structural)]
pub enum ReadbackMismatch {
    GlobalGain { expected: i8, got: i8 },
    FilterCount { expected: usize, got: usize },
    /// The gain of the band at position `band`.
    Gain { index: u8, band: usize },
    Freq { index: u8, expected: u16, got: u16 },
    /// The Q of the band at position `band`.
    Q { index: u8, band: usize },
    FilterType { index: u8 },
}

/// The first mismatch of the band at position `band`, checked in this order:
/// gain, frequency (beyond the device's tolerance), Q, filter type.
pub open spec fn band_mismatch(b: BandReadback, band: usize, caps: DeviceCapabilities) -> Option<
    ReadbackMismatch,
> {
    let diff = (b.read_freq as int) - (b.written_freq as int);
    if !b.gain_close {
        Some(ReadbackMismatch::Gain { index: b.index, band })
    } else if diff > caps.freq_tolerance || -diff > caps.freq_tolerance {
        Some(ReadbackMismatch::Freq { index: b.index, expected: b.written_freq, got: b.read_freq })
    } else if !b.q_close {
        Some(ReadbackMismatch::Q { index: b.index, band })
    } else if b.written_type != b.read_type {
        Some(ReadbackMismatch::FilterType { index: b.index })
    } else {
        None
    }
}

/// The mismatch of the first mismatching band at or after position `i`.
pub open spec fn first_band_mismatch(bands: Seq<BandReadback>, caps: DeviceCapabilities, i: int) -> Option<
    ReadbackMismatch,
>
    decreases bands.len() - i,
{
    if i < 0 || i >= bands.len() {
        None
    } else {
        match band_mismatch(bands[i], i as usize, caps) {
            Some(m) => Some(m),
            None => first_band_mismatch(bands, caps, i + 1),
        }
    }
}

/// The first mismatch of a read-back: the global gain (when one was
/// written), then the band count, then the bands in order.
pub open spec fn readback_mismatch(
    written_gain: Option<i8>,
    read_gain: i8,
    written_count: usize,
    read_count: usize,
    bands: Seq<BandReadback>,
    caps: DeviceCapabilities,
) -> Option<ReadbackMismatch> {
    if written_gain is Some && written_gain->0 != read_gain {
        Some(ReadbackMismatch::GlobalGain { expected: written_gain->0, got: read_gain })
    } else if written_count != read_count {
        Some(ReadbackMismatch::FilterCount { expected: written_count, got: read_count })
    } else {
        first_band_mismatch(bands, caps, 0)
    }
}

/// A band read back matches what was written: gain and Q within the
/// tolerances, the same filter type, and a frequency at most the device's
/// frequency tolerance away on either side.
pub open spec fn band_matches(b: BandReadback, caps: DeviceCapabilities) -> bool {
    &&& b.gain_close
    &&& b.q_close
    &&& b.written_type == b.read_type
    &&& b.written_freq - caps.freq_tolerance <= b.read_freq <= b.written_freq + caps.freq_tolerance
}

/// A read-back matches what was written: the global gain when one was
/// written, the band count, and every band.
pub open spec fn readback_matches(
    written_gain: Option<i8>,
    read_gain: i8,
    written_count: usize,
    read_count: usize,
    bands: Seq<BandReadback>,
    caps: DeviceCapabilities,
) -> bool {
    &&& written_gain matches Some(g) ==> g == read_gain
    &&& written_count == read_count
    &&& forall|i: int| 0 <= i < bands.len() ==> band_matches(#[trigger] bands[i], caps)
}

proof fn lemma_first_band_mismatch_none(bands: Seq<BandReadback>, caps: DeviceCapabilities, i: int)
    requires
        0 <= i <= bands.len(),
    ensures
        first_band_mismatch(bands, caps, i) is None <==> forall|j: int|
            i <= j < bands.len() ==> band_matches(#[trigger] bands[j], caps),
    decreases bands.len() - i,
{
    if i < bands.len() {
        lemma_first_band_mismatch_none(bands, caps, i + 1);
        assert(band_mismatch(bands[i], i as usize, caps) is None <==> band_matches(bands[i], caps));
    }
}

/// A read-back is accepted exactly when it matches what was written: the
/// global gain (when one was written), the band count, and each band's gain,
/// Q and filter type, with the frequency within the device's tolerance on
/// either side. A frequency mismatch names a band whose frequency is off by
/// more than the tolerance.
pub proof fn lemma_readback_accepted_iff_matches(
    written_gain: Option<i8>,
    read_gain: i8,
    written_count: usize,
    read_count: usize,
    bands: Seq<BandReadback>,
    caps: DeviceCapabilities,
)
    ensures
        readback_mismatch(written_gain, read_gain, written_count, read_count, bands, caps) is None
            <==> readback_matches(written_gain, read_gain, written_count, read_count, bands, caps),
        readback_mismatch(written_gain, read_gain, written_count, read_count, bands, caps) matches Some(
            ReadbackMismatch::Freq { expected, got, .. },
        ) ==> !(expected - caps.freq_tolerance <= got <= expected + caps.freq_tolerance),
{
    lemma_first_band_mismatch_none(bands, caps, 0);
    lemma_freq_mismatch_is_off(bands, caps, 0);
}

proof fn lemma_freq_mismatch_is_off(bands: Seq<BandReadback>, caps: DeviceCapabilities, i: int)
    requires
        0 <= i <= bands.len(),
    ensures
        first_band_mismatch(bands, caps, i) matches Some(ReadbackMismatch::Freq { expected, got, .. })
            ==> !(expected - caps.freq_tolerance <= got <= expected + caps.freq_tolerance),
    decreases bands.len() - i,
{
    if i < bands.len() {
        lemma_freq_mismatch_is_off(bands, caps, i + 1);
    }
}

/// Compares a read-back with what was written. The global gain is compared
/// only when one was written; `bands` pairs the bands written and read in
/// order. `Ok` exactly when nothing differs, else the first mismatch.
pub fn compare_readback(
    written_gain: Option<i8>,
    read_gain: i8,
    written_count: usize,
    read_count: usize,
    bands: &Vec<BandReadback>,
    caps: &DeviceCapabilities,
) -> (r: Result<(), ReadbackMismatch>)
    ensures
        match readback_mismatch(written_gain, read_gain, written_count, read_count, bands@, *caps) {
            None => r is Ok,
            Some(m) => r == Err::<(), ReadbackMismatch>(m),
        },
        r is Ok <==> readback_matches(written_gain, read_gain, written_count, read_count, bands@, *caps),
{
    proof {
        lemma_readback_accepted_iff_matches(written_gain, read_gain, written_count, read_count, bands@, *caps);
    }
    match written_gain {
        Some(g) => {
            if g != read_gain {
                return Err(ReadbackMismatch::GlobalGain { expected: g, got: read_gain });
            }
        },
        None => {},
    }
    if written_count != read_count {
        return Err(ReadbackMismatch::FilterCount { expected: written_count, got: read_count });
    }
    let mut i: usize = 0;
    while i < bands.len()
        invariant
            i <= bands@.len(),
            written_count == read_count,
            !(written_gain is Some && written_gain->0 != read_gain),
            first_band_mismatch(bands@, *caps, 0) == first_band_mismatch(bands@, *caps, i as int),
        decreases bands@.len() - i,
    {
        let b = bands[i];
        let diff: i64 = (b.read_freq as i64) - (b.written_freq as i64);
        let tol: i64 = caps.freq_tolerance as i64;
        if !b.gain_close {
            return Err(ReadbackMismatch::Gain { index: b.index, band: i });
        } else if diff > tol || -diff > tol {
            return Err(ReadbackMismatch::Freq { index: b.index, expected: b.written_freq, got: b.read_freq });
        } else if !b.q_close {
            return Err(ReadbackMismatch::Q { index: b.index, band: i });
        } else if b.written_type != b.read_type {
            return Err(ReadbackMismatch::FilterType { index: b.index });
        }
        i = i + 1;
    }
    Ok(())
}

} // verus!
