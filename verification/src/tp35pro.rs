//! EPZ TP35 Pro wire protocol: request, write and commit packets, response
//! matching and the integer fields of a filter response.
use crate::eq::{filter_type_byte, filter_type_of_byte, FilterType};
use crate::timing::{ReadTiming, WriteTiming};
use vstd::prelude::*;

verus! {

pub const REPORT_ID: u8 = 0x4B;

pub const CMD_FLASH_EQ: u8 = 0x01;

pub const CMD_GLOBAL_GAIN: u8 = 0x03;

pub const CMD_PEQ_VALUES: u8 = 0x09;

pub const CMD_TEMP_WRITE: u8 = 0x0A;

pub const CMD_VERSION: u8 = 0x0C;

pub const READ: u8 = 0x80;

pub const WRITE: u8 = 0x01;

pub const END: u8 = 0x00;

pub const CONST_TEMP_WRITE_MAGIC_A: u8 = 0xFF;

pub const CONST_TEMP_WRITE_MAGIC_B: u8 = 0xFF;

pub const CONST_PEQ_PAYLOAD_LEN: u8 = 0x18;

pub const CONST_GLOBAL_GAIN_LEN: u8 = 0x02;

pub const CONST_TEMP_WRITE_LEN: u8 = 0x04;

pub const CONST_FLASH_EQ_LEN: u8 = 0x01;

pub const FILTER_SLOT: u8 = 101;

pub const OFFSET_CMD_TYPE: usize = 0;

pub const OFFSET_CMD: usize = 1;

pub const OFFSET_NONCE: usize = 2;

pub const OFFSET_INDEX: usize = 4;

pub const OFFSET_BIQUAD_START: usize = 7;

pub const OFFSET_FREQ_L: usize = 27;

pub const OFFSET_FREQ_H: usize = 28;

pub const OFFSET_Q_L: usize = 29;

pub const OFFSET_Q_H: usize = 30;

pub const OFFSET_GAIN_L: usize = 31;

pub const OFFSET_GAIN_H: usize = 32;

pub const OFFSET_FILTER_TYPE: usize = 33;

pub const OFFSET_SLOT: usize = 35;

pub const OFFSET_GAIN_VALUE: usize = 4;

/// Number of coefficient bytes in a filter write packet.
pub const BIQUAD_BYTES: usize = 20;

/// Minimum length of a filter response (the highest offset read is 33).
pub const FILTER_RESPONSE_MIN_LEN: usize = 34;

/// Minimum length of a global gain response.
pub const GLOBAL_GAIN_RESPONSE_MIN_LEN: usize = 6;

/// Length of a filter write packet.
pub const FILTER_WRITE_PACKET_LEN: usize = 37;

/// The residue of an integer modulo 2^16: the 16-bit word it is sent as.
pub open spec fn word16(v: int) -> int {
    v % 65536
}

/// The two bytes, least significant first, of the 16-bit word of `v`.
pub open spec fn le_word_bytes(v: int) -> Seq<u8> {
    seq![(word16(v) % 256) as u8, (word16(v) / 256) as u8]
}

/// The unsigned value of two bytes, least significant first.
pub open spec fn le_u16(lo: u8, hi: u8) -> int {
    lo + 256 * hi
}

/// A 16-bit word read as a two's-complement signed value.
pub open spec fn signed16(w: int) -> int {
    if w > 32767 {
        w - 65536
    } else {
        w
    }
}

/// Converts an integer to its two-byte little-endian 16-bit word (the value
/// is taken modulo 2^16, as two's complement does for negative values).
pub fn convert_to_2byte_array(value: i32) -> (b: [u8; 2])
    ensures
        b@ == le_word_bytes(value as int),
{
    let w: i32 = if value >= 0 {
        value % 65536
    } else {
        let x: i32 = -(value + 1);
        65535 - x % 65536
    };
    assert(w == word16(value as int));
    let lo = (w % 256) as u8;
    let hi = (w / 256) as u8;
    let b = [lo, hi];
    assert(b@ =~= le_word_bytes(value as int));
    b
}

/// `v` modulo 2^32, as an unsigned 32-bit value (two's complement).
pub open spec fn word32(v: int) -> int {
    if v >= 0 {
        v % 0x1_0000_0000
    } else {
        0x1_0000_0000 - 1 - ((-(v + 1)) % 0x1_0000_0000)
    }
}

/// The four little-endian bytes of a 32-bit word.
pub open spec fn le_u32_bytes(w: int) -> Seq<u8> {
    seq![
        (w % 256) as u8,
        ((w / 256) % 256) as u8,
        ((w / 65536) % 256) as u8,
        ((w / 16777216) % 256) as u8,
    ]
}

/// The four little-endian bytes of `v` modulo 2^32 (two's complement).
pub fn le_word32_bytes(v: i64) -> (b: [u8; 4])
    requires
        -2147483648 <= v <= 2147483648,
    ensures
        b@ == le_u32_bytes(word32(v as int)),
{
    let w: u64 = if v >= 0 {
        v as u64
    } else {
        let x: u64 = (-(v + 1)) as u64;
        4294967295u64 - x
    };
    assert(w == word32(v as int));
    let b = [(w % 256) as u8, ((w / 256) % 256) as u8, ((w / 65536) % 256) as u8, ((w / 16777216) % 256) as u8];
    assert(b@ =~= le_u32_bytes(w as int));
    b
}

/// The 20 coefficient bytes of a band from its quantized biquad: the three
/// numerator coefficients, then the two denominator coefficients negated
/// (wrapping), each as four little-endian bytes.
pub open spec fn spec_coefficient_bytes(b0: i32, b1: i32, b2: i32, a1: i32, a2: i32) -> Seq<u8> {
    le_u32_bytes(word32(b0 as int)) + le_u32_bytes(word32(b1 as int)) + le_u32_bytes(word32(b2 as int))
        + le_u32_bytes(word32(-(a1 as int))) + le_u32_bytes(word32(-(a2 as int)))
}

/// Packs a quantized biquad into the coefficient bytes of a filter packet.
pub fn coefficient_bytes(b0: i32, b1: i32, b2: i32, a1: i32, a2: i32) -> (v: Vec<u8>)
    ensures
        v@ == spec_coefficient_bytes(b0, b1, b2, a1, a2),
        v@.len() == BIQUAD_BYTES,
{
    let mut v: Vec<u8> = Vec::new();
    push4(&mut v, le_word32_bytes(b0 as i64));
    push4(&mut v, le_word32_bytes(b1 as i64));
    push4(&mut v, le_word32_bytes(b2 as i64));
    push4(&mut v, le_word32_bytes(-(a1 as i64)));
    push4(&mut v, le_word32_bytes(-(a2 as i64)));
    v
}

fn push4(v: &mut Vec<u8>, p: [u8; 4])
    ensures
        final(v)@ == old(v)@ + p@,
{
    v.push(p[0]);
    v.push(p[1]);
    v.push(p[2]);
    v.push(p[3]);
    assert(v@ =~= old(v)@ + p@);
}

/// The integer fields of a filter band as the device stores them: Q and gain
/// are words in units of 1/256.
#[derive(Debug, Clone, Copy, PartialEq, Eq, Structural)]
pub struct FilterWords {
    pub index: u8,
    pub enabled: bool,
    pub freq: u16,
    pub q_word: u16,
    pub gain_word: i16,
    pub filter_type: FilterType,
}

/// The fields of a filter response payload (report ID already removed).
pub open spec fn spec_parse_filter_fields(data: Seq<u8>) -> Option<FilterWords> {
    if data.len() < FILTER_RESPONSE_MIN_LEN {
        None
    } else {
        let freq = le_u16(data[OFFSET_FREQ_L as int], data[OFFSET_FREQ_H as int]);
        let gain = signed16(le_u16(data[OFFSET_GAIN_L as int], data[OFFSET_GAIN_H as int]));
        Some(
            FilterWords {
                index: data[OFFSET_INDEX as int],
                enabled: !(freq == 0 && gain == 0),
                freq: freq as u16,
                q_word: le_u16(data[OFFSET_Q_L as int], data[OFFSET_Q_H as int]) as u16,
                gain_word: gain as i16,
                filter_type: filter_type_of_byte(data[OFFSET_FILTER_TYPE as int]),
            },
        )
    }
}

fn le_u16_exec(lo: u8, hi: u8) -> (w: u16)
    ensures
        w == le_u16(lo, hi),
{
    lo as u16 + 256 * (hi as u16)
}

/// Reads the integer fields of a TP35 Pro filter response payload; `None`
/// when the payload is shorter than a filter response.
pub fn parse_filter_fields(packet: &[u8]) -> (r: Option<FilterWords>)
    ensures
        r == spec_parse_filter_fields(packet@),
{
    if packet.len() < FILTER_RESPONSE_MIN_LEN {
        return None;
    }
    let index = packet[OFFSET_INDEX];
    let freq = le_u16_exec(packet[OFFSET_FREQ_L], packet[OFFSET_FREQ_H]);
    let q_word = le_u16_exec(packet[OFFSET_Q_L], packet[OFFSET_Q_H]);
    let gain_raw = le_u16_exec(packet[OFFSET_GAIN_L], packet[OFFSET_GAIN_H]);
    let gain_word: i16 = if gain_raw > 32767 {
        (gain_raw as i32 - 65536) as i16
    } else {
        gain_raw as i16
    };
    let filter_type = FilterType::from_byte(packet[OFFSET_FILTER_TYPE]);
    let enabled = !(freq == 0 && gain_word == 0);
    Some(FilterWords { index, enabled, freq, q_word, gain_word, filter_type })
}

/// The TP35 Pro protocol.
pub struct TP35ProProtocol;

/// The filter write packet: header, coefficient bytes, frequency, Q and
/// gain words, filter type and slot.
pub open spec fn spec_filter_write_packet(
    index: u8,
    coefficients: Seq<u8>,
    freq: u16,
    q_word: i32,
    gain_word: i32,
    filter_type: FilterType,
) -> Seq<u8> {
    seq![WRITE, CMD_PEQ_VALUES, CONST_PEQ_PAYLOAD_LEN, 0u8, index, 0u8, 0u8] + coefficients
        + le_word_bytes(freq as int) + le_word_bytes(q_word as int) + le_word_bytes(
        gain_word as int,
    ) + seq![filter_type_byte(filter_type), 0u8, FILTER_SLOT, END]
}

/// The two commit packets: temp-write, then flash.
pub open spec fn spec_commit_packets() -> Seq<Seq<u8>> {
    seq![
        seq![WRITE, CMD_TEMP_WRITE, CONST_TEMP_WRITE_LEN, 0u8, 0u8, CONST_TEMP_WRITE_MAGIC_A, CONST_TEMP_WRITE_MAGIC_B, END],
        seq![WRITE, CMD_FLASH_EQ, CONST_FLASH_EQ_LEN, FILTER_SLOT, END],
    ]
}

/// A payload answers the read of filter `index` made with `nonce`.
pub open spec fn spec_matches_filter_response(data: Seq<u8>, index: u8, nonce: u8) -> bool {
    &&& data.len() >= FILTER_RESPONSE_MIN_LEN
    &&& data[OFFSET_CMD_TYPE as int] == READ
    &&& data[OFFSET_CMD as int] == CMD_PEQ_VALUES
    &&& data[OFFSET_NONCE as int] == nonce
    &&& data[OFFSET_INDEX as int] == index
}

/// A payload answers a global gain read.
pub open spec fn spec_matches_global_gain_response(data: Seq<u8>) -> bool {
    &&& data.len() >= GLOBAL_GAIN_RESPONSE_MIN_LEN
    &&& data[OFFSET_CMD_TYPE as int] == READ
    &&& data[OFFSET_CMD as int] == CMD_GLOBAL_GAIN
}

/// The global gain carried by a payload, if it is long enough to carry one.
pub open spec fn spec_parse_global_gain(data: Seq<u8>) -> Option<i8> {
    if data.len() > OFFSET_GAIN_VALUE {
        Some(data[OFFSET_GAIN_VALUE as int] as i8)
    } else {
        None
    }
}

impl TP35ProProtocol {
    /// The HID report ID of every packet.
    pub fn report_id(&self) -> (r: u8)
        ensures
            r == REPORT_ID,
    {
        REPORT_ID
    }

    /// Read timings (the defaults).
    pub fn read_timing(&self) -> (t: ReadTiming)
        ensures
            t == ReadTiming::spec_default(),
    {
        ReadTiming::default_timing()
    }

    /// Write timings: the defaults with a 500 ms step between commit packets.
    pub fn write_timing(&self) -> (t: WriteTiming)
        ensures
            t == (WriteTiming { commit_step_ms: 500, ..WriteTiming::spec_default() }),
    {
        let d = WriteTiming::default_timing();
        WriteTiming { commit_step_ms: 500, ..d }
    }

    /// The version ping sent before every operation.
    pub fn build_init_packets(&self) -> (v: Vec<Vec<u8>>)
        ensures
            v@.len() == 1,
            v@[0]@ == seq![READ, CMD_VERSION, END],
    {
        let mut v: Vec<Vec<u8>> = Vec::new();
        v.push(vec![READ, CMD_VERSION, END]);
        v
    }

    /// The request for filter `index`, tagged with `nonce`.
    pub fn build_filter_read_request(&self, index: u8, nonce: u8) -> (v: Vec<u8>)
        ensures
            v@ == seq![READ, CMD_PEQ_VALUES, nonce, 0u8, index, END],
    {
        vec![READ, CMD_PEQ_VALUES, nonce, 0x00, index, END]
    }

    /// Whether `data` answers the read of filter `index` made with `nonce`.
    pub fn matches_filter_response(&self, data: &[u8], index: u8, nonce: u8) -> (b: bool)
        ensures
            b == spec_matches_filter_response(data@, index, nonce),
    {
        data.len() >= FILTER_RESPONSE_MIN_LEN && data[OFFSET_CMD_TYPE] == READ && data[OFFSET_CMD]
            == CMD_PEQ_VALUES && data[OFFSET_NONCE] == nonce && data[OFFSET_INDEX] == index
    }

    /// The integer fields of a filter response payload.
    pub fn parse_filter_response(&self, data: &[u8]) -> (r: Option<FilterWords>)
        ensures
            r == spec_parse_filter_fields(data@),
    {
        parse_filter_fields(data)
    }

    /// The packet writing one filter band to volatile memory. The coefficient
    /// bytes are the quantized biquad of the band; `q_word` and `gain_word`
    /// are Q and gain in units of 1/256.
    pub fn build_filter_write_packet(
        &self,
        index: u8,
        coefficients: &[u8],
        freq: u16,
        q_word: i32,
        gain_word: i32,
        filter_type: FilterType,
    ) -> (v: Vec<u8>)
        requires
            coefficients@.len() == BIQUAD_BYTES,
        ensures
            v@ == spec_filter_write_packet(
                index,
                coefficients@,
                freq,
                q_word,
                gain_word,
                filter_type,
            ),
            v@.len() == FILTER_WRITE_PACKET_LEN,
    {
        let mut packet: Vec<u8> = vec![WRITE, CMD_PEQ_VALUES, CONST_PEQ_PAYLOAD_LEN, 0x00, index, 0x00, 0x00];
        let mut i: usize = 0;
        while i < coefficients.len()
            invariant
                i <= coefficients@.len(),
                packet@ == seq![WRITE, CMD_PEQ_VALUES, CONST_PEQ_PAYLOAD_LEN, 0u8, index, 0u8, 0u8]
                    + coefficients@.subrange(0, i as int),
            decreases coefficients@.len() - i,
        {
            packet.push(coefficients[i]);
            assert(coefficients@.subrange(0, i + 1) =~= coefficients@.subrange(0, i as int).push(
                coefficients@[i as int],
            ));
            i = i + 1;
        }
        assert(coefficients@.subrange(0, coefficients@.len() as int) =~= coefficients@);
        let f = convert_to_2byte_array(freq as i32);
        let q = convert_to_2byte_array(q_word);
        let g = convert_to_2byte_array(gain_word);
        packet.push(f[0]);
        packet.push(f[1]);
        packet.push(q[0]);
        packet.push(q[1]);
        packet.push(g[0]);
        packet.push(g[1]);
        packet.push(filter_type.to_byte());
        packet.push(0x00);
        packet.push(FILTER_SLOT);
        packet.push(END);
        assert(packet@ =~= spec_filter_write_packet(
            index,
            coefficients@,
            freq,
            q_word,
            gain_word,
            filter_type,
        ));
        packet
    }

    /// The global gain request; the device ignores the nonce here.
    pub fn build_global_gain_request(&self, nonce: u8) -> (v: Vec<u8>)
        ensures
            v@ == seq![READ, CMD_GLOBAL_GAIN, 0u8, END],
    {
        vec![READ, CMD_GLOBAL_GAIN, 0x00, END]
    }

    /// Whether `data` answers a global gain read (the nonce is not echoed).
    pub fn matches_global_gain_response(&self, data: &[u8], nonce: u8) -> (b: bool)
        ensures
            b == spec_matches_global_gain_response(data@),
    {
        data.len() >= GLOBAL_GAIN_RESPONSE_MIN_LEN && data[OFFSET_CMD_TYPE] == READ
            && data[OFFSET_CMD] == CMD_GLOBAL_GAIN
    }

    /// The global gain byte of a response, read as a signed value.
    pub fn parse_global_gain_response(&self, data: &[u8]) -> (r: Option<i8>)
        ensures
            r == spec_parse_global_gain(data@),
    {
        if data.len() > OFFSET_GAIN_VALUE {
            Some(data[OFFSET_GAIN_VALUE] as i8)
        } else {
            None
        }
    }

    /// The packet writing the global gain.
    pub fn build_global_gain_write_packet(&self, gain: i8) -> (v: Vec<u8>)
        ensures
            v@ == seq![WRITE, CMD_GLOBAL_GAIN, CONST_GLOBAL_GAIN_LEN, 0u8, gain as u8, END],
    {
        vec![WRITE, CMD_GLOBAL_GAIN, CONST_GLOBAL_GAIN_LEN, 0x00, gain as u8, END]
    }

    /// The commit sequence: temp-write, then flash-eq.
    pub fn build_commit_packets(&self) -> (v: Vec<Vec<u8>>)
        ensures
            v@.len() == 2,
            v@[0]@ == spec_commit_packets()[0],
            v@[1]@ == spec_commit_packets()[1],
    {
        let mut v: Vec<Vec<u8>> = Vec::new();
        v.push(
            vec![
                WRITE,
                CMD_TEMP_WRITE,
                CONST_TEMP_WRITE_LEN,
                0x00,
                0x00,
                CONST_TEMP_WRITE_MAGIC_A,
                CONST_TEMP_WRITE_MAGIC_B,
                END,
            ],
        );
        v.push(vec![WRITE, CMD_FLASH_EQ, CONST_FLASH_EQ_LEN, FILTER_SLOT, END]);
        v
    }
}

/// A global gain written with `build_global_gain_write_packet` is read back
/// unchanged by `parse_global_gain_response`.
pub proof fn lemma_global_gain_roundtrip(gain: i8)
    ensures
        spec_parse_global_gain(seq![WRITE, CMD_GLOBAL_GAIN, CONST_GLOBAL_GAIN_LEN, 0u8, gain as u8, END])
            == Some(gain),
{
    assert((gain as u8) as i8 == gain) by (bit_vector);
}

/// The fields of a filter write packet are read back by the filter response
/// parser at the same offsets: index, frequency, Q word and filter type
/// always, and the gain whenever it fits a signed 16-bit word.
pub proof fn lemma_filter_write_fields_roundtrip(
    index: u8,
    coefficients: Seq<u8>,
    freq: u16,
    q_word: i32,
    gain_word: i32,
    filter_type: FilterType,
)
    requires
        coefficients.len() == BIQUAD_BYTES,
    ensures
        ({
            let parsed = spec_parse_filter_fields(
                spec_filter_write_packet(index, coefficients, freq, q_word, gain_word, filter_type),
            );
            &&& parsed is Some
            &&& parsed->0.index == index
            &&& parsed->0.freq == freq
            &&& parsed->0.q_word == word16(q_word as int)
            &&& parsed->0.filter_type == filter_type
            &&& -32768 <= gain_word <= 32767 ==> parsed->0.gain_word == gain_word
        }),
{
    let p = spec_filter_write_packet(index, coefficients, freq, q_word, gain_word, filter_type);
    assert(p[27] == (word16(freq as int) % 256) as u8);
    assert(p[28] == (word16(freq as int) / 256) as u8);
    assert(p[29] == (word16(q_word as int) % 256) as u8);
    assert(p[30] == (word16(q_word as int) / 256) as u8);
    assert(p[31] == (word16(gain_word as int) % 256) as u8);
    assert(p[32] == (word16(gain_word as int) / 256) as u8);
    assert(p[33] == filter_type_byte(filter_type));
    assert(p[4] == index);
    crate::eq::lemma_filter_type_byte_roundtrip(filter_type);
}

} // verus!
