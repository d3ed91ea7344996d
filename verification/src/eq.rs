//! EQ domain: filter types, the set of filter types a device supports, the
//! device-word representation of a filter band and ISO frequency snapping.
use vstd::prelude::*;

verus! {

/// The shape of a filter band. The discriminant byte used on the wire is given
/// by `filter_type_byte`.
#[derive(Debug, Clone, Copy, PartialEq, Eq, Structural)]
pub enum FilterType {
    LowShelf,
    Peak,
    HighShelf,
    HighPass,
    LowPass,
}

/// The wire byte of each filter type.
pub open spec fn filter_type_byte(ft: FilterType) -> u8 {
    match ft {
        FilterType::LowShelf => 1,
        FilterType::Peak => 2,
        FilterType::HighShelf => 3,
        FilterType::HighPass => 4,
        FilterType::LowPass => 5,
    }
}

/// The filter type a wire byte denotes; an unknown byte denotes `Peak`.
pub open spec fn filter_type_of_byte(b: u8) -> FilterType {
    if b == 1 {
        FilterType::LowShelf
    } else if b == 3 {
        FilterType::HighShelf
    } else if b == 4 {
        FilterType::HighPass
    } else if b == 5 {
        FilterType::LowPass
    } else {
        FilterType::Peak
    }
}

/// The display name of each filter type.
pub open spec fn filter_type_name(ft: FilterType) -> Seq<char> {
    match ft {
        FilterType::LowShelf => "Low Shelf"@,
        FilterType::Peak => "Peak"@,
        FilterType::HighShelf => "High Shelf"@,
        FilterType::HighPass => "High Pass"@,
        FilterType::LowPass => "Low Pass"@,
    }
}

/// The AutoEQ token of each filter type.
pub open spec fn filter_type_token(ft: FilterType) -> Seq<char> {
    match ft {
        FilterType::LowShelf => "LSQ"@,
        FilterType::Peak => "PK"@,
        FilterType::HighShelf => "HSQ"@,
        FilterType::HighPass => "HP"@,
        FilterType::LowPass => "LP"@,
    }
}

impl FilterType {
    /// The token naming this filter type in AutoEQ text.
    pub fn autoeq_token(&self) -> (s: &'static str)
        ensures
            s@ == filter_type_token(*self),
    {
        match self {
            FilterType::LowShelf => "LSQ",
            FilterType::Peak => "PK",
            FilterType::HighShelf => "HSQ",
            FilterType::HighPass => "HP",
            FilterType::LowPass => "LP",
        }
    }

    /// The filter type a wire byte denotes (unknown bytes fall back to `Peak`).
    pub fn from_byte(b: u8) -> (ft: FilterType)
        ensures
            ft == filter_type_of_byte(b),
    {
        match b {
            1 => FilterType::LowShelf,
            3 => FilterType::HighShelf,
            4 => FilterType::HighPass,
            5 => FilterType::LowPass,
            _ => FilterType::Peak,
        }
    }

    /// The wire byte of this filter type.
    pub fn to_byte(&self) -> (b: u8)
        ensures
            b == filter_type_byte(*self),
    {
        match self {
            FilterType::LowShelf => 1,
            FilterType::Peak => 2,
            FilterType::HighShelf => 3,
            FilterType::HighPass => 4,
            FilterType::LowPass => 5,
        }
    }

    /// The human-readable name of this filter type.
    pub fn display_name(&self) -> (s: &'static str)
        ensures
            s@ == filter_type_name(*self),
    {
        match self {
            FilterType::LowShelf => "Low Shelf",
            FilterType::Peak => "Peak",
            FilterType::HighShelf => "High Shelf",
            FilterType::HighPass => "High Pass",
            FilterType::LowPass => "Low Pass",
        }
    }
}

impl From<u8> for FilterType {
    fn from(b: u8) -> (ft: FilterType) {
        FilterType::from_byte(b)
    }
}

impl vstd::std_specs::convert::FromSpecImpl<u8> for FilterType {
    open spec fn obeys_from_spec() -> bool {
        true
    }

    open spec fn from_spec(b: u8) -> FilterType {
        filter_type_of_byte(b)
    }
}

impl From<FilterType> for u8 {
    fn from(ft: FilterType) -> (b: u8) {
        ft.to_byte()
    }
}

impl vstd::std_specs::convert::FromSpecImpl<FilterType> for u8 {
    open spec fn obeys_from_spec() -> bool {
        true
    }

    open spec fn from_spec(ft: FilterType) -> u8 {
        filter_type_byte(ft)
    }
}

/// Every filter type survives the trip to its wire byte and back.
pub proof fn lemma_filter_type_byte_roundtrip(ft: FilterType)
    ensures
        filter_type_of_byte(filter_type_byte(ft)) == ft,
{
}

/// The name shown to users for a filter type.
pub fn filter_type_display(ft: FilterType) -> (s: &'static str)
    ensures
        s@ == filter_type_name(ft),
{
    ft.display_name()
}

/// A set of filter types, one bit per type.
#[derive(Debug, Clone, Copy, PartialEq, Eq, Structural)]
pub struct FilterTypeFlags {
    pub bits: u8,
}

/// The bit that stands for a filter type in a `FilterTypeFlags` set.
pub open spec fn filter_type_bit(ft: FilterType) -> u8 {
    match ft {
        FilterType::Peak => 1,
        FilterType::LowShelf => 2,
        FilterType::HighShelf => 4,
        FilterType::LowPass => 8,
        FilterType::HighPass => 16,
    }
}

impl FilterTypeFlags {
    /// The set holding exactly the given filter type.
    pub fn of(ft: FilterType) -> (f: FilterTypeFlags)
        ensures
            f.bits == filter_type_bit(ft),
    {
        match ft {
            FilterType::Peak => FilterTypeFlags { bits: 1 },
            FilterType::LowShelf => FilterTypeFlags { bits: 2 },
            FilterType::HighShelf => FilterTypeFlags { bits: 4 },
            FilterType::LowPass => FilterTypeFlags { bits: 8 },
            FilterType::HighPass => FilterTypeFlags { bits: 16 },
        }
    }

    /// The union of two sets.
    pub fn union(self, other: FilterTypeFlags) -> (f: FilterTypeFlags)
        ensures
            f.bits == self.bits | other.bits,
    {
        FilterTypeFlags { bits: self.bits | other.bits }
    }

    /// Whether the set holds the given filter type.
    pub open spec fn spec_supports(self, ft: FilterType) -> bool {
        self.bits & filter_type_bit(ft) != 0
    }

    /// Whether the set holds the given filter type.
    pub fn supports(&self, ft: FilterType) -> (b: bool)
        ensures
            b == self.spec_supports(ft),
    {
        let flag = FilterTypeFlags::of(ft);
        self.bits & flag.bits != 0
    }
}

/// A union holds a filter type exactly when one of its parts does.
pub proof fn lemma_union_supports(a: FilterTypeFlags, b: FilterTypeFlags, ft: FilterType)
    ensures
        (FilterTypeFlags { bits: a.bits | b.bits }).spec_supports(ft) <==> a.spec_supports(ft)
            || b.spec_supports(ft),
{
    let m = filter_type_bit(ft);
    let x = a.bits;
    let y = b.bits;
    assert(m == 1 || m == 2 || m == 4 || m == 8 || m == 16);
    assert((m == 1u8 || m == 2u8 || m == 4u8 || m == 8u8 || m == 16u8) ==> ((x | y) & m != 0 <==> (
    x & m != 0 || y & m != 0))) by (bit_vector);
}

/// The number of ISO center frequencies.
pub const ISO_FREQUENCY_COUNT: usize = 31;

/// The ISO 1/3-octave center frequencies, ascending.
pub open spec fn iso_frequencies() -> Seq<u16> {
    seq![
        20u16, 25, 31, 40, 50, 63, 80, 100, 125, 160, 200, 250, 315, 400, 500, 630, 800, 1000,
        1250, 1600, 2000, 2500, 3150, 4000, 5000, 6300, 8000, 10000, 12500, 16000, 20000,
    ]
}

/// The ISO center frequency at position `i` of the ascending table.
pub fn iso_frequency(i: usize) -> (f: u16)
    requires
        i < ISO_FREQUENCY_COUNT,
    ensures
        f == iso_frequencies()[i as int],
{
    let table: Vec<u16> = vec![
        20, 25, 31, 40, 50, 63, 80, 100, 125, 160, 200, 250, 315, 400, 500, 630, 800, 1000,
        1250, 1600, 2000, 2500, 3150, 4000, 5000, 6300, 8000, 10000, 12500, 16000, 20000,
    ];
    assert(table@ == iso_frequencies());
    table[i]
}

/// The distance between two frequencies.
pub open spec fn freq_distance(a: u16, b: u16) -> int {
    if a >= b {
        a - b
    } else {
        b - a
    }
}

/// `k` is the first position of the ISO table nearest to `freq`.
pub open spec fn is_nearest_iso_index(freq: u16, k: int) -> bool {
    &&& 0 <= k < iso_frequencies().len()
    &&& forall|j: int|
        0 <= j < iso_frequencies().len() ==> freq_distance(iso_frequencies()[k], freq)
            <= freq_distance(#[trigger] iso_frequencies()[j], freq)
    &&& forall|j: int|
        0 <= j < k ==> freq_distance(iso_frequencies()[k], freq) < freq_distance(
            #[trigger] iso_frequencies()[j],
            freq,
        )
}

fn distance(a: u16, b: u16) -> (d: u16)
    ensures
        d == freq_distance(a, b),
{
    if a >= b {
        a - b
    } else {
        b - a
    }
}

/// Snaps a frequency to the nearest ISO center frequency; on a tie the lower
/// one is chosen.
pub fn snap_freq_to_iso(freq: u16) -> (r: u16)
    ensures
        exists|k: int| is_nearest_iso_index(freq, k) && r == iso_frequencies()[k],
{
    let mut best: usize = 0;
    let mut best_dist = distance(iso_frequency(0), freq);
    let mut i: usize = 1;
    while i < ISO_FREQUENCY_COUNT
        invariant
            1 <= i <= ISO_FREQUENCY_COUNT,
            best < i,
            best_dist == freq_distance(iso_frequencies()[best as int], freq),
            forall|j: int|
                0 <= j < i ==> best_dist <= freq_distance(#[trigger] iso_frequencies()[j], freq),
            forall|j: int|
                0 <= j < best ==> best_dist < freq_distance(#[trigger] iso_frequencies()[j], freq),
        decreases ISO_FREQUENCY_COUNT - i,
    {
        let d = distance(iso_frequency(i), freq);
        if d < best_dist {
            best = i;
            best_dist = d;
        }
        i = i + 1;
    }
    let r = iso_frequency(best);
    assert(is_nearest_iso_index(freq, best as int));
    r
}

} // verus!
