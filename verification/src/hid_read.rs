//! Reading EQ state back from a device: the decisions taken after each HID
//! read while waiting for a filter or global gain response, while draining
//! stale reports, and while walking through the bands of a pull. The
//! application performs the reads and the delays.
use crate::error::{AppError, ErrorKind};
use crate::session::{
    assemble_filters, report_payload, spec_assemble_filters, spec_report_payload,
    validate_filter_reads, DeviceSession,
};
use crate::text::{decimal, push_decimal};
use crate::tp35pro::{
    spec_matches_filter_response, spec_matches_global_gain_response, spec_parse_filter_fields,
    spec_parse_global_gain, FilterWords, TP35ProProtocol, REPORT_ID,
};
use vstd::prelude::*;
use vstd::string::StringExecFns;

verus! {

/// Reads allowed while waiting for one filter response.
pub const MAX_FILTER_READ_ATTEMPTS: u8 = 60;

/// Reads allowed while waiting for the global gain response.
pub const MAX_GLOBAL_GAIN_ATTEMPTS: u8 = 20;

/// Unrelated reports tolerated while waiting for one filter response.
pub const MAX_MISMATCH_COUNT: u8 = 8;

/// Reports drained before a pull, at most (one more read ends the drain).
pub const MAX_DRAIN_ITERATIONS: usize = 64;

/// How one timed HID read ended.
#[derive(Debug)]
pub enum ReadOutcome {
    /// The bytes of a report that arrived.
    Report(Vec<u8>),
    /// Nothing arrived before the timeout.
    Nothing,
    /// The read failed.
    Failed,
}

/// What to do after a read: read again, or stop with a result.
#[derive(Debug)]
pub enum ReadStep<T> {
    Again,
    Done(T),
}

/// A read outcome that respects the report size: a report holds 1 to 64 bytes.
pub open spec fn outcome_ok(o: ReadOutcome) -> bool {
    match o {
        ReadOutcome::Report(v) => 0 < v@.len() <= 64,
        _ => true,
    }
}

/// The payload of a report that arrived.
pub open spec fn outcome_payload(o: ReadOutcome) -> Option<Seq<u8>> {
    match o {
        ReadOutcome::Report(v) => Some(spec_report_payload(v@, v@.len() as int, REPORT_ID)),
        _ => None,
    }
}

/// Waiting for the response to the read of one filter.
#[derive(Debug)]
pub struct FilterReader {
    pub index: u8,
    pub nonce: u8,
    pub attempts: u8,
    pub mismatches: u8,
}

/// Reads and mismatches still allowed.
pub open spec fn filter_budget(r: FilterReader) -> int {
    (MAX_FILTER_READ_ATTEMPTS - r.attempts) + (MAX_MISMATCH_COUNT + 1 - r.mismatches)
}

impl FilterReader {
    /// Still waiting: reads and mismatches left.
    pub open spec fn waiting(self) -> bool {
        self.attempts < MAX_FILTER_READ_ATTEMPTS && self.mismatches <= MAX_MISMATCH_COUNT
    }

    /// Starts waiting for the response to the read of filter `index` made with
    /// `nonce`.
    pub fn new(index: u8, nonce: u8) -> (r: FilterReader)
        ensures
            r.index == index,
            r.nonce == nonce,
            r.attempts == 0,
            r.mismatches == 0,
            r.waiting(),
    {
        FilterReader { index, nonce, attempts: 0, mismatches: 0 }
    }

    /// Takes in one read. The matching response ends the wait with its parsed
    /// fields; a failed read, too many unrelated reports or too many reads end
    /// it without. An unrelated report costs a mismatch but no read; an empty
    /// read (or a report ID alone) costs a read.
    pub fn step(&mut self, outcome: ReadOutcome) -> (s: ReadStep<Option<FilterWords>>)
        requires
            old(self).waiting(),
            outcome_ok(outcome),
        ensures
            final(self).index == old(self).index,
            final(self).nonce == old(self).nonce,
            match outcome_payload(outcome) {
                Some(data) => if spec_matches_filter_response(data, old(self).index, old(self).nonce) {
                    s == ReadStep::Done(spec_parse_filter_fields(data))
                } else if data.len() > 0 {
                    &&& final(self).mismatches == old(self).mismatches + 1
                    &&& final(self).attempts == old(self).attempts
                    &&& (s is Again <==> final(self).mismatches <= MAX_MISMATCH_COUNT)
                    &&& s is Done ==> s == ReadStep::<Option<FilterWords>>::Done(None)
                } else {
                    &&& final(self).attempts == old(self).attempts + 1
                    &&& final(self).mismatches == old(self).mismatches
                    &&& (s is Again <==> final(self).attempts < MAX_FILTER_READ_ATTEMPTS)
                    &&& s is Done ==> s == ReadStep::<Option<FilterWords>>::Done(None)
                },
                None => match outcome {
                    ReadOutcome::Failed => s == ReadStep::<Option<FilterWords>>::Done(None),
                    _ => {
                        &&& final(self).attempts == old(self).attempts + 1
                        &&& final(self).mismatches == old(self).mismatches
                        &&& (s is Again <==> final(self).attempts < MAX_FILTER_READ_ATTEMPTS)
                        &&& s is Done ==> s == ReadStep::<Option<FilterWords>>::Done(None)
                    },
                },
            },
            s is Again ==> final(self).waiting() && filter_budget(*final(self)) < filter_budget(
                *old(self),
            ),
    {
        let p = TP35ProProtocol;
        match outcome {
            ReadOutcome::Report(buf) => {
                let data = report_payload(buf.as_slice(), buf.len(), REPORT_ID);
                if p.matches_filter_response(data.as_slice(), self.index, self.nonce) {
                    return ReadStep::Done(p.parse_filter_response(data.as_slice()));
                } else if data.len() > 0 {
                    self.mismatches = self.mismatches + 1;
                    if self.mismatches > MAX_MISMATCH_COUNT {
                        return ReadStep::Done(None);
                    }
                    return ReadStep::Again;
                }
                self.attempts = self.attempts + 1;
            },
            ReadOutcome::Nothing => {
                self.attempts = self.attempts + 1;
            },
            ReadOutcome::Failed => {
                return ReadStep::Done(None);
            },
        }
        if self.attempts < MAX_FILTER_READ_ATTEMPTS {
            ReadStep::Again
        } else {
            ReadStep::Done(None)
        }
    }
}

/// Waiting for the global gain response.
#[derive(Debug)]
pub struct GainReader {
    pub attempts: u8,
}

/// The error a global gain read gives up with.
pub open spec fn gain_timeout(e: AppError) -> bool {
    e.kind == ErrorKind::ReadTimeout && e.message@ == "Global gain read timeout"@ && e.context is None
}

impl GainReader {
    /// Still waiting: reads left.
    pub open spec fn waiting(self) -> bool {
        self.attempts < MAX_GLOBAL_GAIN_ATTEMPTS
    }

    /// Starts waiting for the global gain response.
    pub fn new() -> (r: GainReader)
        ensures
            r.attempts == 0,
            r.waiting(),
    {
        GainReader { attempts: 0 }
    }

    /// Takes in one read: a global gain response that carries the gain ends
    /// the wait with it; anything else costs a read, and the last allowed read
    /// ends the wait with a timeout.
    pub fn step(&mut self, outcome: ReadOutcome) -> (s: ReadStep<Result<i8, AppError>>)
        requires
            old(self).waiting(),
            outcome_ok(outcome),
        ensures
            ({
                let got = match outcome_payload(outcome) {
                    Some(data) => if spec_matches_global_gain_response(data) {
                        spec_parse_global_gain(data)
                    } else {
                        None
                    },
                    None => None,
                };
                match got {
                    Some(g) => s == ReadStep::Done(Ok::<i8, AppError>(g)),
                    None => {
                        &&& final(self).attempts == old(self).attempts + 1
                        &&& (s is Again <==> final(self).waiting())
                        &&& (s is Done ==> (s matches ReadStep::Done(Err(e)) && gain_timeout(e)))
                    },
                }
            }),
    {
        let p = TP35ProProtocol;
        match outcome {
            ReadOutcome::Report(buf) => {
                let data = report_payload(buf.as_slice(), buf.len(), REPORT_ID);
                if p.matches_global_gain_response(data.as_slice(), 0) {
                    match p.parse_global_gain_response(data.as_slice()) {
                        Some(g) => {
                            return ReadStep::Done(Ok(g));
                        },
                        None => {},
                    }
                }
            },
            _ => {},
        }
        self.attempts = self.attempts + 1;
        if self.attempts < MAX_GLOBAL_GAIN_ATTEMPTS {
            ReadStep::Again
        } else {
            ReadStep::Done(Err(AppError::new(ErrorKind::ReadTimeout, "Global gain read timeout")))
        }
    }
}

/// Whether to keep draining stale reports after a read, given how many
/// reports were drained before it; returns the new count too. Draining stops
/// at the first empty or failed read, and after `MAX_DRAIN_ITERATIONS + 1`
/// reports.
pub fn drain_step(drained: usize, outcome: &ReadOutcome) -> (r: (bool, usize))
    requires
        drained <= MAX_DRAIN_ITERATIONS,
    ensures
        match outcome {
            ReadOutcome::Report(_) => r.1 == drained + 1 && r.0 == (r.1 <= MAX_DRAIN_ITERATIONS),
            _ => !r.0 && r.1 == drained,
        },
{
    match outcome {
        ReadOutcome::Report(_) => {
            let n = drained + 1;
            (n <= MAX_DRAIN_ITERATIONS, n)
        },
        _ => (false, drained),
    }
}

/// The message of a strict pull that lost filter `index` read with `nonce`.
pub open spec fn lost_filter_message(index: u8, nonce: u8) -> Seq<char> {
    "Failed to read filter "@ + decimal(index as nat) + " (nonce: "@ + decimal(nonce as nat) + ")"@
}

/// One pull of the EQ state, band by band: a read request per filter, then
/// the global gain.
#[derive(Debug)]
pub struct PullSession {
    pub strict: bool,
    pub num_bands: usize,
    pub session: DeviceSession,
    pub results: Vec<Option<FilterWords>>,
    pub had_mismatch: bool,
}

/// The number of filters a pull asks for: the band count, as a byte.
pub open spec fn bands_to_read(num_bands: usize) -> nat {
    (num_bands as u8) as nat
}

impl PullSession {
    /// Starts a pull with the session the device was initialised with.
    pub fn new(strict: bool, num_bands: usize, session: DeviceSession) -> (p: PullSession)
        ensures
            p.strict == strict,
            p.num_bands == num_bands,
            p.session == session,
            p.results@.len() == 0,
            !p.had_mismatch,
    {
        PullSession { strict, num_bands, session, results: Vec::new(), had_mismatch: false }
    }

    /// The next filter to read and the nonce for its request, or `None` when
    /// every filter was read.
    pub fn next_filter(&mut self) -> (r: Option<(u8, u8)>)
        requires
            old(self).results@.len() <= bands_to_read(old(self).num_bands),
        ensures
            final(self).strict == old(self).strict,
            final(self).num_bands == old(self).num_bands,
            final(self).results@ == old(self).results@,
            final(self).had_mismatch == old(self).had_mismatch,
            old(self).results@.len() == bands_to_read(old(self).num_bands) ==> r is None
                && final(self).session == old(self).session,
            old(self).results@.len() < bands_to_read(old(self).num_bands) ==> r == Some(
                (
                    old(self).results@.len() as u8,
                    crate::session::nonce_issued(old(self).session.counter()),
                ),
            ) && final(self).session.counter() == crate::session::nonce_after(
                old(self).session.counter(),
            ),
    {
        #[verifier::truncate]
        let total = self.num_bands as u8;
        if self.results.len() >= total as usize {
            return None;
        }
        let i = self.results.len() as u8;
        let n = self.session.next_nonce();
        Some((i, n))
    }

    /// Records the result of reading filter `index` with `nonce`. A strict
    /// pull fails on the first filter that could not be read.
    pub fn record_filter(&mut self, index: u8, nonce: u8, result: Option<FilterWords>) -> (r: Result<(), AppError>)
        requires
            old(self).results@.len() < bands_to_read(old(self).num_bands),
        ensures
            final(self).strict == old(self).strict,
            final(self).num_bands == old(self).num_bands,
            final(self).session == old(self).session,
            old(self).strict && result is None ==> (r matches Err(e) && e.kind == ErrorKind::ReadTimeout
                && e.message@ == lost_filter_message(index, nonce) && e.context is None)
                && final(self).results@ == old(self).results@,
            !(old(self).strict && result is None) ==> r is Ok && final(self).results@ == old(self).results@.push(result)
                && final(self).had_mismatch == (old(self).had_mismatch || result is None),
    {
        if self.strict && result.is_none() {
            let mut msg = String::from_str("Failed to read filter ");
            push_decimal(&mut msg, index as u64);
            msg.append(" (nonce: ");
            push_decimal(&mut msg, nonce as u64);
            msg.append(")");
            return Err(AppError::new(ErrorKind::ReadTimeout, msg.as_str()));
        }
        if result.is_none() {
            self.had_mismatch = true;
        }
        self.results.push(result);
        Ok(())
    }

    /// After the last filter: a strict pull that lost a filter fails;
    /// otherwise the nonce for the global gain request.
    pub fn finish_filters(&mut self) -> (r: Result<u8, AppError>)
        ensures
            final(self).results@ == old(self).results@,
            final(self).strict == old(self).strict,
            final(self).num_bands == old(self).num_bands,
            old(self).strict && old(self).had_mismatch ==> r is Err && final(self).session == old(self).session,
            !(old(self).strict && old(self).had_mismatch) ==> r == Ok::<u8, AppError>(crate::session::nonce_issued(old(self).session.counter()))
                && final(self).session.counter() == crate::session::nonce_after(old(self).session.counter()),
    {
        match validate_filter_reads(self.strict, self.had_mismatch) {
            Err(e) => Err(e),
            Ok(()) => Ok(self.session.next_nonce()),
        }
    }

    /// The pulled bands, padded with defaults for those that could not be
    /// read, and the global gain.
    pub fn assemble(self, global_gain: i8) -> (r: (Vec<FilterWords>, i8))
        ensures
            r.0@ == spec_assemble_filters(self.num_bands as nat, self.results@),
            r.1 == global_gain,
    {
        (assemble_filters(self.num_bands, self.results), global_gain)
    }
}

} // verus!
