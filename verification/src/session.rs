//! HID report framing, the per-operation nonce counter and the assembly of
//! filter reads into a full set of bands.
use crate::error::{AppError, ErrorKind};
use crate::eq::FilterType;
use crate::tp35pro::FilterWords;
use vstd::prelude::*;

verus! {

/// Size of an outgoing HID report: the report ID plus 64 payload bytes.
pub const REPORT_FRAME_LEN: usize = 65;

/// Largest payload carried by one report.
pub const MAX_REPORT_PAYLOAD: usize = 64;

/// Per-operation nonce counter. Nonces are never 0.
#[derive(Debug)]
pub struct DeviceSession {
    nonce: u8,
}

/// The nonce handed out when the counter stands at `n`.
pub open spec fn nonce_issued(n: u8) -> u8 {
    if n == 0 {
        1
    } else {
        n
    }
}

/// The counter after handing out the nonce for counter value `n`.
pub open spec fn nonce_after(n: u8) -> u8 {
    if n == 255 {
        0
    } else if n == 0 {
        2
    } else {
        (n + 1) as u8
    }
}

impl DeviceSession {
    /// The current counter value.
    pub closed spec fn counter(&self) -> u8 {
        self.nonce
    }

    /// A fresh session, whose first nonce is 1.
    pub fn new() -> (s: DeviceSession)
        ensures
            s.counter() == 1,
    {
        DeviceSession { nonce: 1 }
    }

    /// Hands out the next nonce, skipping 0.
    pub fn next_nonce(&mut self) -> (n: u8)
        ensures
            n == nonce_issued(old(self).counter()),
            final(self).counter() == nonce_after(old(self).counter()),
            n != 0,
    {
        if self.nonce == 0 {
            self.nonce = 1;
        }
        let n = self.nonce;
        self.nonce = if n == 255 { 0 } else { n + 1 };
        n
    }
}

impl Default for DeviceSession {
    fn default() -> (s: DeviceSession)
        ensures
            s.counter() == 1,
    {
        DeviceSession::new()
    }
}

/// The `k`-th nonce (counting from 0) handed out by a fresh session.
pub open spec fn kth_nonce(k: nat) -> u8 {
    ((k % 255) + 1) as u8
}

/// The counter of a fresh session after `k` nonces were handed out.
pub open spec fn counter_after(k: nat) -> u8 {
    if k > 0 && k % 255 == 0 {
        0
    } else {
        ((k % 255) + 1) as u8
    }
}

/// A fresh session hands out 1, 2, ..., 255, 1, 2, ...: the nonce handed out
/// after `k` earlier ones is `k mod 255 + 1`, so consecutive nonces differ
/// and 0 is never used.
pub proof fn lemma_nonce_sequence(k: nat)
    ensures
        counter_after(0) == 1,
        nonce_issued(counter_after(k)) == kth_nonce(k),
        nonce_after(counter_after(k)) == counter_after(k + 1),
        kth_nonce(k) != kth_nonce(k + 1),
        kth_nonce(k) != 0,
{
}

/// The 65-byte report carrying `data` (truncated to 64 bytes) after the
/// report ID, padded with zeros.
pub open spec fn spec_report_frame(data: Seq<u8>, report_id: u8) -> Seq<u8> {
    let len = if data.len() < 64 { data.len() } else { 64 };
    Seq::new(
        65,
        |i: int|
            if i == 0 {
                report_id
            } else if i <= len {
                data[i - 1]
            } else {
                0u8
            },
    )
}

/// Framing a payload of at most 64 bytes and stripping the report ID from the
/// frame's first `1 + len` bytes gives the payload back; the frame is always
/// 65 bytes that start with the report ID.
pub proof fn lemma_frame_payload_roundtrip(data: Seq<u8>, report_id: u8)
    requires
        data.len() <= 64,
    ensures
        spec_report_frame(data, report_id).len() == 65,
        spec_report_frame(data, report_id)[0] == report_id,
        spec_report_payload(spec_report_frame(data, report_id), 1 + data.len() as int, report_id) == data,
{
    assert(spec_report_frame(data, report_id).subrange(1, 1 + data.len() as int) =~= data);
}

/// Frames a payload as an outgoing HID report.
pub fn build_report_frame(data: &[u8], report_id: u8) -> (v: Vec<u8>)
    ensures
        v@ == spec_report_frame(data@, report_id),
{
    let len = if data.len() < MAX_REPORT_PAYLOAD {
        data.len()
    } else {
        MAX_REPORT_PAYLOAD
    };
    let mut v: Vec<u8> = Vec::new();
    v.push(report_id);
    let mut i: usize = 1;
    while i < REPORT_FRAME_LEN
        invariant
            1 <= i <= REPORT_FRAME_LEN,
            len <= data@.len(),
            len == (if data@.len() < 64 { data@.len() } else { 64 }),
            v@.len() == i,
            forall|j: int|
                0 <= j < i ==> v@[j] == spec_report_frame(data@, report_id)[j],
        decreases REPORT_FRAME_LEN - i,
    {
        if i <= len {
            v.push(data[i - 1]);
        } else {
            v.push(0);
        }
        i = i + 1;
    }
    assert(v@ =~= spec_report_frame(data@, report_id));
    v
}

/// The payload of an incoming report of `count` bytes: the bytes after the
/// report ID when the first byte is the report ID, else all of them.
pub open spec fn spec_report_payload(buf: Seq<u8>, count: int, report_id: u8) -> Seq<u8> {
    if buf[0] == report_id {
        buf.subrange(1, count)
    } else {
        buf.subrange(0, count)
    }
}

/// Strips the report ID from the first `count` bytes of an incoming report.
pub fn report_payload(buf: &[u8], count: usize, report_id: u8) -> (v: Vec<u8>)
    requires
        0 < count <= buf@.len(),
    ensures
        v@ == spec_report_payload(buf@, count as int, report_id),
{
    let start: usize = if buf[0] == report_id {
        1
    } else {
        0
    };
    let mut v: Vec<u8> = Vec::new();
    let mut i: usize = start;
    while i < count
        invariant
            start <= i <= count,
            count <= buf@.len(),
            v@ == buf@.subrange(start as int, i as int),
        decreases count - i,
    {
        v.push(buf[i]);
        assert(buf@.subrange(start as int, i + 1) =~= buf@.subrange(start as int, i as int).push(
            buf@[i as int],
        ));
        i = i + 1;
    }
    v
}

/// Rejects a read in strict mode when some filter failed to read.
pub fn validate_filter_reads(strict: bool, had_mismatch: bool) -> (r: Result<(), AppError>)
    ensures
        r is Ok <==> !(strict && had_mismatch),
        r matches Err(e) ==> e.kind == ErrorKind::ReadTimeout && e.message@
            == "One or more filters failed to read"@,
{
    if strict && had_mismatch {
        return Err(AppError::new(ErrorKind::ReadTimeout, "One or more filters failed to read"));
    }
    Ok(())
}

/// Default center frequencies of a 10-band layout.
pub open spec fn default_band_freqs() -> Seq<u16> {
    seq![31u16, 62, 125, 250, 500, 1000, 2000, 4000, 8000, 16000]
}

/// The default center frequency of band `index`: from the 10-band layout,
/// else 1000 Hz.
pub open spec fn default_band_freq(index: u8) -> u16 {
    if index < 10 {
        default_band_freqs()[index as int]
    } else {
        1000
    }
}

/// The neutral band at `index`: peak filter, 0 dB, Q 1 (256/256).
pub open spec fn spec_default_band(index: u8, enabled: bool) -> FilterWords {
    FilterWords {
        index,
        enabled,
        freq: default_band_freq(index),
        q_word: 256,
        gain_word: 0,
        filter_type: FilterType::Peak,
    }
}

/// The neutral band at `index`.
pub fn default_band(index: u8, enabled: bool) -> (f: FilterWords)
    ensures
        f == spec_default_band(index, enabled),
{
    let freqs: Vec<u16> = vec![31, 62, 125, 250, 500, 1000, 2000, 4000, 8000, 16000];
    assert(freqs@ == default_band_freqs());
    let freq = if (index as usize) < freqs.len() {
        freqs[index as usize]
    } else {
        1000
    };
    FilterWords { index, enabled, freq, q_word: 256, gain_word: 0, filter_type: FilterType::Peak }
}

/// The bands assembled from per-band read results: each successful read as
/// read, each failed one as a disabled neutral band, padded to `num_bands`.
pub open spec fn spec_assemble_filters(num_bands: nat, results: Seq<Option<FilterWords>>) -> Seq<
    FilterWords,
> {
    let n = if results.len() >= num_bands { results.len() } else { num_bands };
    Seq::new(
        n,
        |i: int|
            if i < results.len() && results[i] is Some {
                results[i]->0
            } else {
                spec_default_band(i as u8, false)
            },
    )
}

/// Assembling keeps every band in place: the read for position `i`, when it
/// succeeded, is band `i`; a failed or missing read at position `i` becomes
/// the disabled neutral band of index `i`; and there are as many bands as
/// reads, or `num_bands` when more.
pub proof fn lemma_assemble_keeps_reads_in_place(num_bands: nat, results: Seq<Option<FilterWords>>)
    ensures
        spec_assemble_filters(num_bands, results).len() == if results.len() >= num_bands {
            results.len()
        } else {
            num_bands
        },
        forall|i: int|
            0 <= i < results.len() && #[trigger] results[i] is Some ==> spec_assemble_filters(
                num_bands,
                results,
            )[i] == results[i]->0,
        forall|i: int|
            0 <= i < spec_assemble_filters(num_bands, results).len() && (i >= results.len()
                || results[i] is None) ==> #[trigger] spec_assemble_filters(num_bands, results)[i]
                == spec_default_band(i as u8, false),
{
}

/// Assembles per-band read results into bands.
pub fn assemble_filters(num_bands: usize, results: Vec<Option<FilterWords>>) -> (v: Vec<FilterWords>)
    ensures
        v@ == spec_assemble_filters(num_bands as nat, results@),
        v@.len() == if results@.len() >= num_bands { results@.len() } else { num_bands as nat },
        forall|i: int| 0 <= i < results@.len() && #[trigger] results@[i] is Some ==> v@[i] == results@[i]->0,
        forall|i: int|
            0 <= i < v@.len() && (i >= results@.len() || results@[i] is None) ==> #[trigger] v@[i]
                == spec_default_band(i as u8, false),
{
    proof {
        lemma_assemble_keeps_reads_in_place(num_bands as nat, results@);
    }
    let mut v: Vec<FilterWords> = Vec::new();
    let mut i: usize = 0;
    let total = if results.len() >= num_bands {
        results.len()
    } else {
        num_bands
    };
    while i < total
        invariant
            i <= total,
            total == (if results@.len() >= num_bands { results@.len() } else { num_bands as nat }),
            v@.len() == i,
            forall|j: int|
                0 <= j < i ==> v@[j] == spec_assemble_filters(num_bands as nat, results@)[j],
        decreases total - i,
    {
        let f = if i < results.len() {
            match results[i] {
                Some(f) => f,
                None => default_band(i as u8, false),
            }
        } else {
            default_band(i as u8, false)
        };
        v.push(f);
        i = i + 1;
    }
    assert(v@ =~= spec_assemble_filters(num_bands as nat, results@));
    v
}

} // verus!
