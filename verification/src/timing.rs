//! Delays, in milliseconds, that a device protocol asks for between packets.
use vstd::prelude::*;

verus! {

/// Delays used while writing an EQ configuration.
#[derive(Debug, Clone, Copy, PartialEq, Eq, Structural)]
pub struct WriteTiming {
    pub per_filter_ms: u64,
    pub flood_delay_ms: u64,
    pub batch_ms: u64,
    pub global_gain_ms: u64,
    pub commit_step_ms: u64,
}

/// Delays used while reading an EQ configuration.
#[derive(Debug, Clone, Copy, PartialEq, Eq, Structural)]
pub struct ReadTiming {
    pub inter_filter_ms: u64,
    pub read_timeout_ms: u64,
    pub post_filter_read_ms: u64,
    pub post_global_gain_ms: u64,
    pub pull_retry_delay_ms: u64,
    pub wake_delay_ms: u64,
    pub verify_backoff_base_ms: u64,
}

impl WriteTiming {
    /// The default write delays.
    pub open spec fn spec_default() -> WriteTiming {
        WriteTiming {
            per_filter_ms: 20,
            flood_delay_ms: 10,
            batch_ms: 50,
            global_gain_ms: 20,
            commit_step_ms: 100,
        }
    }

    /// The default write delays.
    pub fn default_timing() -> (t: WriteTiming)
        ensures
            t == WriteTiming::spec_default(),
    {
        WriteTiming {
            per_filter_ms: 20,
            flood_delay_ms: 10,
            batch_ms: 50,
            global_gain_ms: 20,
            commit_step_ms: 100,
        }
    }

    /// The delay after each filter packet: the larger of the per-filter and
    /// flood delays.
    pub fn filter_step_ms(&self) -> (d: u64)
        ensures
            d == if self.per_filter_ms >= self.flood_delay_ms {
                self.per_filter_ms
            } else {
                self.flood_delay_ms
            },
    {
        if self.per_filter_ms >= self.flood_delay_ms {
            self.per_filter_ms
        } else {
            self.flood_delay_ms
        }
    }
}

impl Default for WriteTiming {
    fn default() -> (t: WriteTiming)
        ensures
            t == WriteTiming::spec_default(),
    {
        WriteTiming::default_timing()
    }
}

impl ReadTiming {
    /// The default read delays.
    pub open spec fn spec_default() -> ReadTiming {
        ReadTiming {
            inter_filter_ms: 10,
            read_timeout_ms: 60,
            post_filter_read_ms: 20,
            post_global_gain_ms: 20,
            pull_retry_delay_ms: 200,
            wake_delay_ms: 50,
            verify_backoff_base_ms: 100,
        }
    }

    /// The default read delays.
    pub fn default_timing() -> (t: ReadTiming)
        ensures
            t == ReadTiming::spec_default(),
    {
        ReadTiming {
            inter_filter_ms: 10,
            read_timeout_ms: 60,
            post_filter_read_ms: 20,
            post_global_gain_ms: 20,
            pull_retry_delay_ms: 200,
            wake_delay_ms: 50,
            verify_backoff_base_ms: 100,
        }
    }
}

impl Default for ReadTiming {
    fn default() -> (t: ReadTiming)
        ensures
            t == ReadTiming::spec_default(),
    {
        ReadTiming::default_timing()
    }
}

} // verus!
