//! One cycle of the acquisition loop.
//!
//! The loop owning the device handle hands in each raw read; the cycle
//! decodes the valid prefix, trims it, audits every non-empty line, and
//! extracts and classifies the weight. The caller persists each appended
//! audit record before it forwards the sample — log durability precedes
//! visibility — and emits only present samples to the bridge.

use vstd::prelude::*;
use crate::audit::AuditLog;
use crate::audit::record_chars;
use crate::clock::Timestamp;
use crate::clock::clock_timestamp;
use crate::decode::decode_line;
use crate::decode::decoded_line;
use crate::level::CoffeeLevel;
use crate::level::LevelConfig;
use crate::level::level_of;
use crate::level::select_level;
use crate::weight::extract_weight;
use crate::weight::weight_of;

verus! {

/// What one acquisition cycle produced from a device read.
#[derive(Clone, Copy, PartialEq, Eq, Structural, Debug)]
pub enum CycleOutcome {
    /// The line carried a weight; it was classified and audited.
    Sample { weight: u32, level: CoffeeLevel },
    /// A non-empty line without a usable weight; audited all the same.
    Unknown,
    /// An empty line after trimming: no data this tick, nothing audited.
    NoData,
    /// The buffer prefix was not valid text; the cycle is skipped.
    BadEncoding,
}

/// The outcome a buffer prefix determines under a configuration.
pub open spec fn cycle_outcome(bytes: Seq<u8>, config: LevelConfig) -> CycleOutcome {
    match decoded_line(bytes) {
        None => CycleOutcome::BadEncoding,
        Some(t) => if t.len() == 0 {
            CycleOutcome::NoData
        } else {
            match weight_of(t) {
                Some(w) => CycleOutcome::Sample { weight: w, level: level_of(w, config) },
                None => CycleOutcome::Unknown,
            }
        },
    }
}

/// The line a cycle audits: the trimmed text when the prefix decoded and
/// is non-empty, nothing otherwise.
pub open spec fn audited_line(bytes: Seq<u8>) -> Option<Seq<char>> {
    match decoded_line(bytes) {
        Some(t) => if t.len() == 0 {
            None
        } else {
            Some(t)
        },
        None => None,
    }
}

/// The compute side of the acquisition loop: the configured range and the
/// audit log. The device handle and the log file stay with the caller,
/// which hands in each raw read and writes out each appended record.
pub struct Acquisition {
    config: LevelConfig,
    log: AuditLog,
}

impl Acquisition {
    /// The configured weight range.
    pub closed spec fn config(&self) -> LevelConfig {
        self.config
    }

    /// The audit records so far, in arrival order.
    pub closed spec fn audit(&self) -> Seq<Seq<char>> {
        self.log@
    }

    pub open spec fn wf(&self) -> bool {
        self.config().wf()
    }

    pub fn new(config: LevelConfig) -> (acq: Acquisition)
        requires
            config.wf(),
        ensures
            acq.wf(),
            acq.config() == config,
            acq.audit() == Seq::<Seq<char>>::empty(),
    {
        Acquisition { config, log: AuditLog::new() }
    }

    /// One acquisition cycle at a given instant: decode the valid prefix,
    /// trim it, audit a non-empty line, extract and classify its weight.
    pub fn process_at(&mut self, data: &[u8], n: usize, ts: &Timestamp) -> (out: CycleOutcome)
        requires
            old(self).wf(),
            n <= data@.len(),
            ts.valid(),
        ensures
            final(self).wf(),
            final(self).config() == old(self).config(),
            out == cycle_outcome(data@.subrange(0, n as int), old(self).config()),
            final(self).audit() == (match audited_line(data@.subrange(0, n as int)) {
                Some(l) => old(self).audit().push(record_chars(*ts, l)),
                None => old(self).audit(),
            }),
    {
        match decode_line(data, n) {
            None => CycleOutcome::BadEncoding,
            Some(line) => {
                if line.as_str().unicode_len() == 0 {
                    CycleOutcome::NoData
                } else {
                    self.log.append(ts, line.as_str());
                    match extract_weight(line.as_str()) {
                        Some(w) => CycleOutcome::Sample {
                            weight: w,
                            level: select_level(w, &self.config),
                        },
                        None => CycleOutcome::Unknown,
                    }
                }
            },
        }
    }

    /// One acquisition cycle at the current wall-clock time.
    pub fn process(&mut self, data: &[u8], n: usize) -> (out: CycleOutcome)
        requires
            old(self).wf(),
            n <= data@.len(),
        ensures
            final(self).wf(),
            final(self).config() == old(self).config(),
            out == cycle_outcome(data@.subrange(0, n as int), old(self).config()),
            (match audited_line(data@.subrange(0, n as int)) {
                Some(l) => exists|ts: Timestamp|
                    ts.valid() && final(self).audit() == old(self).audit().push(
                        #[trigger] record_chars(ts, l),
                    ),
                None => final(self).audit() == old(self).audit(),
            }),
    {
        let ts = clock_timestamp();
        self.process_at(data, n, &ts)
    }

    /// How many audit records have been produced.
    pub fn audit_len(&self) -> (n: usize)
        ensures
            n == self.audit().len(),
    {
        self.log.len()
    }

    /// Read an audit record back, for the caller that persists the log.
    pub fn audit_record_at(&self, i: usize) -> (r: &String)
        requires
            i < self.audit().len(),
        ensures
            r@ == self.audit()[i as int],
    {
        self.log.record_at(i)
    }

    /// A copy of the configured range, for the presentation side.
    pub fn config_value(&self) -> (c: LevelConfig)
        ensures
            c == self.config(),
    {
        self.config
    }
}

} // verus!
