//! Statistical sampling of the page-flag table, its extrapolation to the
//! whole system, and the estimate of how far the table reaches.
use vstd::prelude::*;
use rand::Rng;
use crate::catalog::{NUM_FLAGS, NUM_CATEGORIES};
use crate::counters::{FlagCounters, SAFETY_LIMIT};
use crate::census::{ScanOutcome, counted};

verus! {

/// Cancellation is looked at whenever the number of attempts is a multiple of this.
pub const SAMPLE_POLL_INTERVAL: u64 = 100;

/// A sampling run makes at most this many attempts per requested sample.
pub const ATTEMPTS_PER_SAMPLE: u64 = 10;

/// Relies on rand's `thread_rng().gen_range(0..upper)`: a value of
/// `[0, upper)`. It panics on an empty range, which `requires` leaves out.
#[verifier::external_body]
fn random_pfn(upper: u64) -> (pfn: u64)
    requires
        upper > 0,
    ensures
        pfn < upper,
{
    rand::thread_rng().gen_range(0..upper)
}

/// What a sampling run asks of its caller.
#[derive(Debug, Clone, Copy, PartialEq, Eq, Structural)]
pub enum SampleStep {
    /// Read the record of this PFN and report the result.
    Read(u64),
    /// The run is over; the count is the number of samples collected.
    Finished(ScanOutcome),
}

/// A sampling run: reads at uniformly drawn PFNs below `estimated_max_pfn`
/// until `sample_size` reads succeeded or `10 × sample_size` were attempted.
pub struct SampleScan {
    pub sample_size: u32,
    pub estimated_max_pfn: u64,
    pub attempts: u64,
    pub awaiting_read: bool,
    pub counters: FlagCounters,
    pub finished: Option<ScanOutcome>,
}

impl SampleScan {
    pub open spec fn samples(&self) -> u64 {
        self.counters.total_scanned
    }

    pub open spec fn max_attempts(&self) -> int {
        ATTEMPTS_PER_SAMPLE * self.sample_size
    }

    pub open spec fn wf(&self) -> bool {
        &&& self.counters.wf()
        &&& self.estimated_max_pfn > 0
        &&& self.samples() <= self.attempts <= self.max_attempts()
        &&& self.samples() <= self.sample_size
        &&& self.awaiting_read ==> self.finished is None && self.samples() < self.attempts
            && self.samples() < self.sample_size && self.samples() < SAFETY_LIMIT
        &&& self.finished matches Some(o) ==> o.spec_count() == self.samples()
    }

    /// Whether the run stops now, and why; `None` means another attempt is due.
    pub open spec fn decision(&self, cancelled: bool) -> Option<ScanOutcome> {
        if self.finished is Some {
            self.finished
        } else if self.samples() >= self.sample_size {
            Some(ScanOutcome::Completed(self.samples()))
        } else if self.samples() >= SAFETY_LIMIT {
            Some(ScanOutcome::SafetyLimitReached(self.samples()))
        } else if self.attempts >= self.max_attempts() {
            Some(ScanOutcome::Completed(self.samples()))
        } else if self.attempts % SAMPLE_POLL_INTERVAL == 0 && cancelled {
            Some(ScanOutcome::Interrupted(self.samples()))
        } else {
            None
        }
    }

    /// A run drawing from `[0, estimated_max_pfn)`.
    pub fn new(sample_size: u32, estimated_max_pfn: u64) -> (s: SampleScan)
        requires
            estimated_max_pfn > 0,
        ensures
            s.wf(),
            s.sample_size == sample_size,
            s.estimated_max_pfn == estimated_max_pfn,
            s.attempts == 0,
            s.samples() == 0,
            !s.awaiting_read,
            s.finished is None,
    {
        SampleScan {
            sample_size,
            estimated_max_pfn,
            attempts: 0,
            awaiting_read: false,
            counters: FlagCounters::new(),
            finished: None,
        }
    }

    /// Stops, or draws the next PFN to read and counts the attempt.
    pub fn next_step(&mut self, cancelled: bool) -> (step: SampleStep)
        requires
            old(self).wf(),
            !old(self).awaiting_read,
        ensures
            final(self).wf(),
            match step {
                SampleStep::Finished(o) => {
                    &&& old(self).decision(cancelled) == Some(o)
                    &&& final(self).finished == Some(o)
                    &&& final(self).attempts == old(self).attempts
                    &&& final(self).counters == old(self).counters
                    &&& !final(self).awaiting_read
                },
                SampleStep::Read(pfn) => {
                    &&& old(self).decision(cancelled) is None
                    &&& pfn < old(self).estimated_max_pfn
                    &&& final(self).attempts == old(self).attempts + 1
                    &&& final(self).counters == old(self).counters
                    &&& final(self).awaiting_read
                    &&& final(self).finished is None
                },
            },
            final(self).sample_size == old(self).sample_size,
            final(self).estimated_max_pfn == old(self).estimated_max_pfn,
    {
        let samples = self.counters.total_scanned;
        let max_attempts = ATTEMPTS_PER_SAMPLE * self.sample_size as u64;
        let stop = if let Some(o) = self.finished {
            Some(o)
        } else if samples >= self.sample_size as u64 {
            Some(ScanOutcome::Completed(samples))
        } else if samples >= SAFETY_LIMIT {
            Some(ScanOutcome::SafetyLimitReached(samples))
        } else if self.attempts >= max_attempts {
            Some(ScanOutcome::Completed(samples))
        } else if self.attempts % SAMPLE_POLL_INTERVAL == 0 && cancelled {
            Some(ScanOutcome::Interrupted(samples))
        } else {
            None
        };
        match stop {
            Some(o) => {
                self.finished = Some(o);
                SampleStep::Finished(o)
            },
            None => {
                let pfn = random_pfn(self.estimated_max_pfn);
                self.attempts = self.attempts + 1;
                self.awaiting_read = true;
                SampleStep::Read(pfn)
            },
        }
    }

    /// Takes the result of the read just asked for; a record read is a sample.
    pub fn record_result(&mut self, result: Option<u64>)
        requires
            old(self).wf(),
            old(self).awaiting_read,
        ensures
            final(self).wf(),
            !final(self).awaiting_read,
            final(self).attempts == old(self).attempts,
            final(self).finished == old(self).finished,
            final(self).sample_size == old(self).sample_size,
            final(self).estimated_max_pfn == old(self).estimated_max_pfn,
            result is None ==> final(self).counters == old(self).counters,
            result matches Some(f) ==> counted(old(self).counters, final(self).counters, f),
    {
        self.awaiting_read = false;
        if let Some(flags) = result {
            self.counters.observe(flags);
        }
    }

    /// The counters and totals of the run so far.
    pub fn estimate(&self) -> (e: SampleEstimate)
        requires
            self.wf(),
        ensures
            e.wf(),
            e.samples_collected == self.samples(),
            e.attempts == self.attempts,
            e.pages_with_flags == self.counters.total_with_any_flag,
            e.flag_counts@ == self.counters.flag_counts@,
            e.category_counts@ == self.counters.category_counts@,
            e.estimated_total_pages == self.estimated_max_pfn,
    {
        SampleEstimate {
            samples_collected: self.counters.total_scanned,
            attempts: self.attempts,
            pages_with_flags: self.counters.total_with_any_flag,
            flag_counts: copy_counts(&self.counters.flag_counts),
            category_counts: copy_counts(&self.counters.category_counts),
            estimated_total_pages: self.estimated_max_pfn,
        }
    }
}

/// Every sampling run makes at least as many attempts as it collects samples,
/// and at most ten per requested sample. It stops once the requested samples
/// are in or the attempts are spent, whichever comes first, and it draws again
/// only while neither has happened.
pub proof fn lemma_sampling_bounds(s: SampleScan, cancelled: bool)
    requires
        s.wf(),
    ensures
        s.samples() <= s.attempts <= ATTEMPTS_PER_SAMPLE * s.sample_size,
        s.finished is None && s.samples() == s.sample_size ==> s.decision(cancelled) == Some(
            ScanOutcome::Completed(s.samples()),
        ),
        s.finished is None && s.attempts == s.max_attempts() && s.samples() < SAFETY_LIMIT
            ==> s.decision(cancelled) == Some(ScanOutcome::Completed(s.samples())),
        s.decision(cancelled) is None ==> s.samples() < s.sample_size && s.attempts
            < s.max_attempts(),
{
}

fn copy_counts(v: &Vec<u64>) -> (c: Vec<u64>)
    ensures
        c@ == v@,
{
    let mut c: Vec<u64> = Vec::new();
    let mut i: usize = 0;
    while i < v.len()
        invariant
            i <= v@.len(),
            c@ == v@.subrange(0, i as int),
        decreases v@.len() - i,
    {
        c.push(v[i]);
        i = i + 1;
    }
    c
}

/// `raw × estimated_total / samples`, rounded down.
pub open spec fn spec_extrapolate(raw: u64, estimated_total: u64, samples: u64) -> int {
    (raw as int * estimated_total as int) / samples as int
}

/// Scales a count seen in `samples` samples to a population of `estimated_total`.
pub fn extrapolate(raw: u64, estimated_total: u64, samples: u64) -> (e: u128)
    requires
        samples > 0,
    ensures
        e as int == spec_extrapolate(raw, estimated_total, samples),
{
    assert(raw as u128 * estimated_total as u128 <= u128::MAX) by (nonlinear_arith)
        requires
            raw <= u64::MAX,
            estimated_total <= u64::MAX,
    ;
    let product = raw as u128 * estimated_total as u128;
    product / samples as u128
}

/// Raw counters of a sampling run, with the population they are scaled to.
pub struct SampleEstimate {
    pub samples_collected: u64,
    pub attempts: u64,
    pub pages_with_flags: u64,
    pub flag_counts: Vec<u64>,
    pub category_counts: Vec<u64>,
    pub estimated_total_pages: u64,
}

impl SampleEstimate {
    pub open spec fn wf(&self) -> bool {
        &&& self.flag_counts@.len() == NUM_FLAGS
        &&& self.category_counts@.len() == NUM_CATEGORIES
    }

    /// Estimated number of pages in the system with catalog flag `i`.
    pub fn estimated_flag_total(&self, i: usize) -> (e: u128)
        requires
            self.wf(),
            i < NUM_FLAGS,
            self.samples_collected > 0,
        ensures
            e as int == spec_extrapolate(
                self.flag_counts@[i as int],
                self.estimated_total_pages,
                self.samples_collected,
            ),
    {
        extrapolate(self.flag_counts[i], self.estimated_total_pages, self.samples_collected)
    }

    /// Estimated hits of the category counted at position `k`, system-wide.
    pub fn estimated_category_total(&self, k: usize) -> (e: u128)
        requires
            self.wf(),
            k < NUM_CATEGORIES,
            self.samples_collected > 0,
        ensures
            e as int == spec_extrapolate(
                self.category_counts@[k as int],
                self.estimated_total_pages,
                self.samples_collected,
            ),
    {
        extrapolate(self.category_counts[k], self.estimated_total_pages, self.samples_collected)
    }

    /// Estimated number of pages in the system with any flag set.
    pub fn estimated_pages_with_flags(&self) -> (e: u128)
        requires
            self.samples_collected > 0,
        ensures
            e as int == spec_extrapolate(
                self.pages_with_flags,
                self.estimated_total_pages,
                self.samples_collected,
            ),
    {
        extrapolate(self.pages_with_flags, self.estimated_total_pages, self.samples_collected)
    }
}

/// Every extrapolated per-flag estimate is the raw count times the estimated
/// population divided by the number of samples.
pub proof fn lemma_flag_estimates_scale_raw_counts(e: SampleEstimate, i: int)
    requires
        e.wf(),
        0 <= i < NUM_FLAGS,
        e.samples_collected > 0,
    ensures
        spec_extrapolate(e.flag_counts@[i], e.estimated_total_pages, e.samples_collected) == (
        e.flag_counts@[i] as int * e.estimated_total_pages as int) / e.samples_collected as int,
{
}

/// Where the upper bound of the sampled PFN range comes from.
#[derive(Debug, Clone, Copy, PartialEq, Eq, Structural)]
pub enum MaxPfnEstimate {
    /// A usable page count derived from total memory.
    FromHint(u64),
    /// No usable hint: the ceiling must be found by probing the table.
    Probe,
}

/// Chooses the sampled range's bound: the hint when it is present and not
/// zero, else probing.
pub fn estimate_max_pfn(hint: Option<u64>) -> (e: MaxPfnEstimate)
    ensures
        e == match hint {
            Some(n) => if n > 0 {
                MaxPfnEstimate::FromHint(n)
            } else {
                MaxPfnEstimate::Probe
            },
            None => MaxPfnEstimate::Probe,
        },
{
    match hint {
        Some(n) => if n > 0 {
            MaxPfnEstimate::FromHint(n)
        } else {
            MaxPfnEstimate::Probe
        },
        None => MaxPfnEstimate::Probe,
    }
}

/// Upper end of the first probing bracket.
pub const PROBE_CEILING: u64 = 100_000_000;

/// PFNs probed around each midpoint.
pub const PROBES_PER_ROUND: u64 = 10;

/// Probing stops once the bracket is this narrow.
pub const PROBE_PRECISION: u64 = 1000;

/// Added to the last valid PFN found, to cover sparse regions above it.
pub const CEILING_MARGIN: u64 = 10_000;

/// The ceiling reported is never below this.
pub const MIN_CEILING: u64 = 1_000_000;

/// What a ceiling search asks of its caller.
#[derive(Debug, Clone, Copy, PartialEq, Eq, Structural)]
pub enum ProbeStep {
    /// Try to read the record of this PFN and report whether it could be read.
    Probe(u64),
    /// The estimated ceiling of valid PFNs.
    Done(u64),
}

/// Binary search for the ceiling of valid PFNs: each round probes ten PFNs
/// from the bracket's midpoint; a hit raises the lower bound to the midpoint,
/// no hit lowers the upper bound to it.
#[derive(Debug, Clone, Copy, PartialEq, Eq, Structural)]
pub struct CeilingSearch {
    pub low: u64,
    pub high: u64,
    pub last_valid: u64,
    pub offset: u64,
    pub hit_this_round: bool,
}

pub open spec fn spec_ceiling(last_valid: u64) -> int {
    if last_valid + CEILING_MARGIN >= MIN_CEILING {
        last_valid + CEILING_MARGIN
    } else {
        MIN_CEILING as int
    }
}

impl CeilingSearch {
    pub open spec fn wf(self) -> bool {
        &&& self.low <= self.high <= PROBE_CEILING
        &&& self.last_valid <= PROBE_CEILING + PROBES_PER_ROUND
        &&& self.offset < PROBES_PER_ROUND
        &&& self.offset > 0 ==> self.high - self.low > PROBE_PRECISION
    }

    pub open spec fn mid(self) -> u64 {
        ((self.low + self.high) / 2) as u64
    }

    /// The search is still probing.
    pub open spec fn probing(self) -> bool {
        self.offset > 0 || self.high - self.low > PROBE_PRECISION
    }

    /// Bound on the probes left: it falls with every probe.
    pub open spec fn remaining(self) -> int {
        (self.high - self.low) * PROBES_PER_ROUND + (PROBES_PER_ROUND - self.offset)
    }

    pub fn new() -> (s: CeilingSearch)
        ensures
            s.wf(),
            s.low == 0,
            s.high == PROBE_CEILING,
            s.last_valid == 0,
            s.offset == 0,
    {
        CeilingSearch { low: 0, high: PROBE_CEILING, last_valid: 0, offset: 0, hit_this_round: false }
    }

    pub fn next_step(&self) -> (step: ProbeStep)
        requires
            self.wf(),
        ensures
            self.probing() ==> step == ProbeStep::Probe((self.mid() + self.offset) as u64),
            !self.probing() ==> step == ProbeStep::Done(spec_ceiling(self.last_valid) as u64),
            step matches ProbeStep::Done(c) ==> c >= MIN_CEILING,
    {
        if self.offset > 0 || self.high - self.low > PROBE_PRECISION {
            ProbeStep::Probe((self.low + self.high) / 2 + self.offset)
        } else {
            let candidate = self.last_valid + CEILING_MARGIN;
            ProbeStep::Done(if candidate >= MIN_CEILING { candidate } else { MIN_CEILING })
        }
    }

    /// Takes whether the PFN just probed could be read.
    pub fn record_probe(&mut self, found: bool)
        requires
            old(self).wf(),
            old(self).probing(),
        ensures
            final(self).wf(),
            0 <= final(self).remaining() < old(self).remaining(),
            found ==> final(self).last_valid == old(self).mid() + old(self).offset,
            !found ==> final(self).last_valid == old(self).last_valid,
            old(self).offset + 1 < PROBES_PER_ROUND ==> final(self).low == old(self).low
                && final(self).high == old(self).high && final(self).offset == old(self).offset + 1,
            old(self).offset + 1 == PROBES_PER_ROUND ==> final(self).offset == 0 && if found
                || old(self).hit_this_round {
                final(self).low == old(self).mid() && final(self).high == old(self).high
            } else {
                final(self).low == old(self).low && final(self).high == old(self).mid()
            },
    {
        let mid = (self.low + self.high) / 2;
        if found {
            self.hit_this_round = true;
            self.last_valid = mid + self.offset;
        }
        self.offset = self.offset + 1;
        if self.offset == PROBES_PER_ROUND {
            if self.hit_this_round {
                self.low = mid;
            } else {
                self.high = mid;
            }
            self.offset = 0;
            self.hit_this_round = false;
        }
    }
}

} // verus!
