//! Sequential scans of the page-flag table. The table is read one record at
//! a time by the caller: a scan says which PFN to read next, or that it has
//! stopped and why, and is then told what the read returned.
use vstd::prelude::*;
use crate::catalog::{NUM_FLAGS, NUM_CATEGORIES};
use crate::page::{PageInfo, has_flag};
use crate::counters::{FlagCounters, SAFETY_LIMIT, category_hits};

verus! {

/// A run of this many unreadable records in a row ends a scan.
pub const MAX_CONSECUTIVE_FAILURES: u32 = 1000;

/// Cancellation is looked at whenever the number of records read is a multiple of this.
pub const CANCEL_POLL_INTERVAL: u64 = 1000;

/// A progress line is due whenever the number of records read is a multiple of this.
pub const PROGRESS_INTERVAL: u64 = 50_000;

/// Why a scan stopped, with the number of records it read.
#[derive(Debug, Clone, Copy, PartialEq, Eq, Structural)]
pub enum ScanOutcome {
    Completed(u64),
    Interrupted(u64),
    SafetyLimitReached(u64),
}

impl ScanOutcome {
    pub open spec fn spec_count(self) -> u64 {
        match self {
            ScanOutcome::Completed(n) => n,
            ScanOutcome::Interrupted(n) => n,
            ScanOutcome::SafetyLimitReached(n) => n,
        }
    }

    /// Number of records read before the scan stopped.
    pub fn count(&self) -> (n: u64)
        ensures
            n == self.spec_count(),
    {
        match self {
            ScanOutcome::Completed(n) => *n,
            ScanOutcome::Interrupted(n) => *n,
            ScanOutcome::SafetyLimitReached(n) => *n,
        }
    }
}

/// What a scan asks of its caller.
#[derive(Debug, Clone, Copy, PartialEq, Eq, Structural)]
pub enum ScanStep {
    /// Read the record of this PFN and report the result.
    Read(u64),
    /// The scan is over.
    Finished(ScanOutcome),
}

/// Position and failure bookkeeping of a sequential scan over `[start_pfn, end_pfn)`.
#[derive(Debug, Clone, Copy, PartialEq, Eq, Structural)]
pub struct ScanCursor {
    pub start_pfn: u64,
    pub end_pfn: u64,
    pub next_pfn: u64,
    pub read_count: u64,
    pub consecutive_failures: u32,
    pub finished: Option<ScanOutcome>,
}

impl ScanCursor {
    pub open spec fn wf(self) -> bool {
        &&& self.start_pfn <= self.next_pfn <= self.end_pfn
        &&& self.read_count <= self.next_pfn - self.start_pfn
        &&& self.read_count <= SAFETY_LIMIT
        &&& self.finished is None ==> self.read_count < SAFETY_LIMIT
            && self.consecutive_failures < MAX_CONSECUTIVE_FAILURES
        &&& self.finished matches Some(o) ==> o.spec_count() == self.read_count
    }

    /// A cursor at the start of `[start_pfn, end_pfn)`.
    pub open spec fn spec_new(start_pfn: u64, end_pfn: u64) -> ScanCursor {
        ScanCursor {
            start_pfn,
            end_pfn,
            next_pfn: start_pfn,
            read_count: 0,
            consecutive_failures: 0,
            finished: None,
        }
    }

    /// What the scan does next, given whether cancellation has been requested.
    pub open spec fn decide(self, cancelled: bool) -> ScanStep {
        if let Some(o) = self.finished {
            ScanStep::Finished(o)
        } else if self.next_pfn >= self.end_pfn {
            ScanStep::Finished(ScanOutcome::Completed(self.read_count))
        } else if self.read_count % CANCEL_POLL_INTERVAL == 0 && cancelled {
            ScanStep::Finished(ScanOutcome::Interrupted(self.read_count))
        } else {
            ScanStep::Read(self.next_pfn)
        }
    }

    /// The cursor after deciding: a scan that stops remembers why.
    pub open spec fn after_decide(self, cancelled: bool) -> ScanCursor {
        match self.decide(cancelled) {
            ScanStep::Finished(o) => ScanCursor { finished: Some(o), ..self },
            ScanStep::Read(_) => self,
        }
    }

    /// The cursor after the record at `next_pfn` was read (`Some`) or could not be (`None`).
    pub open spec fn absorb(self, result: Option<u64>) -> ScanCursor {
        match result {
            Some(_) => {
                let n = (self.read_count + 1) as u64;
                ScanCursor {
                    next_pfn: (self.next_pfn + 1) as u64,
                    read_count: n,
                    consecutive_failures: 0,
                    finished: if n >= SAFETY_LIMIT {
                        Some(ScanOutcome::SafetyLimitReached(n))
                    } else {
                        None
                    },
                    ..self
                }
            },
            None => {
                let f = (self.consecutive_failures + 1) as u32;
                ScanCursor {
                    next_pfn: (self.next_pfn + 1) as u64,
                    consecutive_failures: f,
                    finished: if f >= MAX_CONSECUTIVE_FAILURES {
                        Some(ScanOutcome::Completed(self.read_count))
                    } else {
                        None
                    },
                    ..self
                }
            },
        }
    }

    /// A read of `next_pfn` is pending.
    pub open spec fn expects_read(self) -> bool {
        self.finished is None && self.next_pfn < self.end_pfn
    }

    pub fn new(start_pfn: u64, end_pfn: u64) -> (c: ScanCursor)
        requires
            start_pfn <= end_pfn,
        ensures
            c == ScanCursor::spec_new(start_pfn, end_pfn),
            c.wf(),
    {
        ScanCursor {
            start_pfn,
            end_pfn,
            next_pfn: start_pfn,
            read_count: 0,
            consecutive_failures: 0,
            finished: None,
        }
    }

    pub fn next_step(&mut self, cancelled: bool) -> (step: ScanStep)
        requires
            old(self).wf(),
        ensures
            step == old(self).decide(cancelled),
            *final(self) == old(self).after_decide(cancelled),
            final(self).wf(),
            step is Read ==> final(self).expects_read(),
    {
        if let Some(o) = self.finished {
            return ScanStep::Finished(o);
        }
        let step = if self.next_pfn >= self.end_pfn {
            ScanStep::Finished(ScanOutcome::Completed(self.read_count))
        } else if self.read_count % CANCEL_POLL_INTERVAL == 0 && cancelled {
            ScanStep::Finished(ScanOutcome::Interrupted(self.read_count))
        } else {
            ScanStep::Read(self.next_pfn)
        };
        if let ScanStep::Finished(o) = step {
            self.finished = Some(o);
        }
        step
    }

    pub fn absorb_result(&mut self, result: Option<u64>)
        requires
            old(self).wf(),
            old(self).expects_read(),
        ensures
            *final(self) == old(self).absorb(result),
            final(self).wf(),
    {
        self.next_pfn = self.next_pfn + 1;
        match result {
            Some(_) => {
                self.read_count = self.read_count + 1;
                self.consecutive_failures = 0;
                if self.read_count >= SAFETY_LIMIT {
                    self.finished = Some(ScanOutcome::SafetyLimitReached(self.read_count));
                }
            },
            None => {
                self.consecutive_failures = self.consecutive_failures + 1;
                if self.consecutive_failures >= MAX_CONSECUTIVE_FAILURES {
                    self.finished = Some(ScanOutcome::Completed(self.read_count));
                }
            },
        }
    }

    /// A progress report is due after the read just absorbed.
    pub fn progress_due(&self) -> (due: bool)
        ensures
            due == (self.read_count > 0 && self.read_count % PROGRESS_INTERVAL == 0),
    {
        self.read_count > 0 && self.read_count % PROGRESS_INTERVAL == 0
    }
}

/// End of a scan of `count` PFNs from `start_pfn`, cut at the end of the PFN space.
pub open spec fn range_end(start_pfn: u64, count: u64) -> u64 {
    if start_pfn + count <= u64::MAX {
        (start_pfn + count) as u64
    } else {
        u64::MAX
    }
}

/// The records after the read at `c.next_pfn` returned `result`.
pub open spec fn absorbed_records(c: ScanCursor, records: Seq<PageInfo>, result: Option<u64>) -> Seq<
    PageInfo,
> {
    match result {
        Some(f) => records.push(PageInfo { pfn: c.next_pfn, flags: f }),
        None => records,
    }
}

/// A scan that keeps one `PageInfo` per record read: a bounded range
/// (`range`) or everything from a PFN on (`unbounded`).
pub struct RecordScan {
    pub cursor: ScanCursor,
    pub records: Vec<PageInfo>,
}

impl RecordScan {
    pub open spec fn wf(&self) -> bool {
        &&& self.cursor.wf()
        &&& self.records@.len() == self.cursor.read_count
        &&& forall|k: int|
            0 <= k < self.records@.len() ==> self.cursor.start_pfn <= (#[trigger] self.records@[k]).pfn
                < self.cursor.next_pfn
        &&& forall|a: int, b: int|
            0 <= a < b < self.records@.len() ==> (#[trigger] self.records@[a]).pfn < (
            #[trigger] self.records@[b]).pfn
    }

    /// A scan of `count` consecutive PFNs from `start_pfn`.
    pub fn range(start_pfn: u64, count: u64) -> (s: RecordScan)
        ensures
            s.wf(),
            s.cursor == ScanCursor::spec_new(start_pfn, range_end(start_pfn, count)),
            s.records@.len() == 0,
    {
        let end = if count <= u64::MAX - start_pfn {
            start_pfn + count
        } else {
            u64::MAX
        };
        RecordScan { cursor: ScanCursor::new(start_pfn, end), records: Vec::new() }
    }

    /// A scan of every PFN from `start_pfn` on, bounded only by the failure
    /// run, the safety limit and cancellation.
    pub fn unbounded(start_pfn: u64) -> (s: RecordScan)
        ensures
            s.wf(),
            s.cursor == ScanCursor::spec_new(start_pfn, u64::MAX),
            s.records@.len() == 0,
    {
        RecordScan { cursor: ScanCursor::new(start_pfn, u64::MAX), records: Vec::new() }
    }

    /// The next thing to do. A scan that stops reports exactly the number of
    /// records it holds.
    pub fn next_step(&mut self, cancelled: bool) -> (step: ScanStep)
        requires
            old(self).wf(),
        ensures
            final(self).wf(),
            step == old(self).cursor.decide(cancelled),
            final(self).cursor == old(self).cursor.after_decide(cancelled),
            final(self).records@ == old(self).records@,
            step matches ScanStep::Finished(o) ==> o.spec_count() == final(self).records@.len(),
            step is Read ==> final(self).cursor.expects_read(),
    {
        self.cursor.next_step(cancelled)
    }

    /// Takes the result of reading `cursor.next_pfn`.
    pub fn record_result(&mut self, result: Option<u64>)
        requires
            old(self).wf(),
            old(self).cursor.expects_read(),
        ensures
            final(self).wf(),
            final(self).cursor == old(self).cursor.absorb(result),
            final(self).records@ == absorbed_records(old(self).cursor, old(self).records@, result),
    {
        let pfn = self.cursor.next_pfn;
        self.cursor.absorb_result(result);
        if let Some(flags) = result {
            self.records.push(PageInfo { pfn, flags });
        }
    }

    /// The records read so far, in increasing PFN order.
    pub fn into_records(self) -> (records: Vec<PageInfo>)
        ensures
            records@ == self.records@,
    {
        self.records
    }
}

/// `after` is `before` with one more record, whose flag word is `flags`, counted.
pub open spec fn counted(before: FlagCounters, after: FlagCounters, flags: u64) -> bool {
    &&& after.total_scanned == before.total_scanned + 1
    &&& after.total_with_any_flag == before.total_with_any_flag + if flags != 0 {
        1int
    } else {
        0int
    }
    &&& after.flag_counts@.len() == before.flag_counts@.len()
    &&& after.category_counts@.len() == before.category_counts@.len()
    &&& forall|i: int|
        0 <= i < NUM_FLAGS ==> #[trigger] after.flag_counts@[i] == before.flag_counts@[i] + if has_flag(
            flags,
            i,
        ) {
            1int
        } else {
            0int
        }
    &&& forall|k: int|
        0 <= k < NUM_CATEGORIES ==> #[trigger] after.category_counts@[k] == before.category_counts@[k]
            + category_hits(flags, k)
}

/// A scan over `[start_pfn, end)` that keeps only aggregate counters.
pub struct SummaryScan {
    pub cursor: ScanCursor,
    pub counters: FlagCounters,
}

impl SummaryScan {
    pub open spec fn wf(&self) -> bool {
        &&& self.cursor.wf()
        &&& self.counters.wf()
        &&& self.counters.total_scanned == self.cursor.read_count
    }

    /// Counts `count` PFNs from `start_pfn`, or every PFN from there on when
    /// `count` is `None`.
    pub fn new(start_pfn: u64, count: Option<u64>) -> (s: SummaryScan)
        ensures
            s.wf(),
            s.cursor == ScanCursor::spec_new(
                start_pfn,
                match count {
                    Some(c) => range_end(start_pfn, c),
                    None => u64::MAX,
                },
            ),
            s.counters.total_scanned == 0,
    {
        let end = match count {
            Some(c) => if c <= u64::MAX - start_pfn {
                start_pfn + c
            } else {
                u64::MAX
            },
            None => u64::MAX,
        };
        SummaryScan { cursor: ScanCursor::new(start_pfn, end), counters: FlagCounters::new() }
    }

    /// The next thing to do. A scan that stops reports exactly the number of
    /// records it counted.
    pub fn next_step(&mut self, cancelled: bool) -> (step: ScanStep)
        requires
            old(self).wf(),
        ensures
            final(self).wf(),
            step == old(self).cursor.decide(cancelled),
            final(self).cursor == old(self).cursor.after_decide(cancelled),
            final(self).counters == old(self).counters,
            step matches ScanStep::Finished(o) ==> o.spec_count() == final(self).counters.total_scanned,
            step is Read ==> final(self).cursor.expects_read(),
    {
        self.cursor.next_step(cancelled)
    }

    /// Takes the result of reading `cursor.next_pfn`; a record read is counted.
    pub fn record_result(&mut self, result: Option<u64>)
        requires
            old(self).wf(),
            old(self).cursor.expects_read(),
        ensures
            final(self).wf(),
            final(self).cursor == old(self).cursor.absorb(result),
            result is None ==> final(self).counters == old(self).counters,
            result matches Some(f) ==> counted(old(self).counters, final(self).counters, f),
    {
        self.cursor.absorb_result(result);
        if let Some(flags) = result {
            self.counters.observe(flags);
        }
    }
}

/// A cancellation seen at a poll point stops a record scan as interrupted,
/// with a count equal to the number of records the scan holds; a counters
/// scan likewise reports the number of records it counted.
pub proof fn lemma_interrupt_reports_records_held(r: RecordScan, s: SummaryScan)
    ensures
        r.wf() && r.cursor.finished is None && r.cursor.next_pfn < r.cursor.end_pfn
            && r.cursor.read_count % CANCEL_POLL_INTERVAL == 0 ==> r.cursor.decide(true)
            == ScanStep::Finished(ScanOutcome::Interrupted(r.records@.len() as u64)),
        s.wf() && s.cursor.finished is None && s.cursor.next_pfn < s.cursor.end_pfn
            && s.cursor.read_count % CANCEL_POLL_INTERVAL == 0 ==> s.cursor.decide(true)
            == ScanStep::Finished(ScanOutcome::Interrupted(s.counters.total_scanned)),
{
}

/// The cursor and records after each result of `results` in turn, with
/// cancellation never requested, or as they were when the scan stopped.
pub open spec fn drive_uncancelled(c: ScanCursor, records: Seq<PageInfo>, results: Seq<Option<u64>>) -> (
    ScanCursor,
    Seq<PageInfo>,
)
    decreases results.len(),
{
    if results.len() == 0 {
        (c, records)
    } else {
        match c.decide(false) {
            ScanStep::Read(_) => drive_uncancelled(
                c.absorb(results[0]),
                absorbed_records(c, records, results[0]),
                results.drop_first(),
            ),
            ScanStep::Finished(_) => (c.after_decide(false), records),
        }
    }
}

proof fn lemma_drive_present(c: ScanCursor, records: Seq<PageInfo>, flags: Seq<u64>)
    requires
        c.wf(),
        c.finished is None,
        c.consecutive_failures == 0 || flags.len() == 0,
        c.next_pfn + flags.len() == c.end_pfn,
        c.read_count + flags.len() < SAFETY_LIMIT,
    ensures
        ({
            let (d, recs) = drive_uncancelled(c, records, flags.map_values(|f: u64| Some(f)));
            &&& d.finished is None
            &&& d.next_pfn == c.end_pfn
            &&& d.start_pfn == c.start_pfn
            &&& d.end_pfn == c.end_pfn
            &&& d.read_count == c.read_count + flags.len()
            &&& recs.len() == records.len() + flags.len()
            &&& recs.subrange(0, records.len() as int) == records
            &&& forall|i: int|
                0 <= i < flags.len() ==> #[trigger] recs[records.len() + i] == PageInfo {
                    pfn: (c.next_pfn + i) as u64,
                    flags: flags[i],
                }
        }),
    decreases flags.len(),
{
    let results = flags.map_values(|f: u64| Some(f));
    if flags.len() > 0 {
        let c2 = c.absorb(results[0]);
        let r2 = absorbed_records(c, records, results[0]);
        assert(results.drop_first() == flags.drop_first().map_values(|f: u64| Some(f)));
        lemma_drive_present(c2, r2, flags.drop_first());
        let (d, recs) = drive_uncancelled(c2, r2, flags.drop_first().map_values(|f: u64| Some(f)));
        assert(recs.subrange(0, records.len() as int) == records) by {
            assert(recs.subrange(0, r2.len() as int) == r2);
            assert(recs.subrange(0, records.len() as int) == r2.subrange(0, records.len() as int));
        }
        assert forall|i: int| 0 <= i < flags.len() implies #[trigger] recs[records.len() + i]
            == PageInfo { pfn: (c.next_pfn + i) as u64, flags: flags[i] } by {
            if i == 0 {
                assert(recs[records.len() as int] == recs.subrange(0, r2.len() as int)[records.len() as int]);
            } else {
                assert(recs[r2.len() + (i - 1)] == PageInfo {
                    pfn: (c2.next_pfn + (i - 1)) as u64,
                    flags: flags.drop_first()[i - 1],
                });
            }
        }
    }
}

/// A range scan of `flags.len()` PFNs from `start_pfn` in which every read
/// succeeds and cancellation is never requested yields one record per PFN,
/// in strictly increasing PFN order, and then completes with that count.
pub proof fn lemma_full_range_yields_every_record(start_pfn: u64, flags: Seq<u64>)
    requires
        start_pfn + flags.len() <= u64::MAX,
        flags.len() < SAFETY_LIMIT,
    ensures
        ({
            let (c, recs) = drive_uncancelled(
                ScanCursor::spec_new(start_pfn, range_end(start_pfn, flags.len() as u64)),
                Seq::empty(),
                flags.map_values(|f: u64| Some(f)),
            );
            &&& c.decide(false) == ScanStep::Finished(ScanOutcome::Completed(flags.len() as u64))
            &&& recs.len() == flags.len()
            &&& forall|i: int|
                0 <= i < flags.len() ==> #[trigger] recs[i] == PageInfo {
                    pfn: (start_pfn + i) as u64,
                    flags: flags[i],
                }
            &&& forall|a: int, b: int| 0 <= a < b < recs.len() ==> (#[trigger] recs[a]).pfn < (#[trigger] recs[b]).pfn
        }),
{
    let c0 = ScanCursor::spec_new(start_pfn, range_end(start_pfn, flags.len() as u64));
    lemma_drive_present(c0, Seq::empty(), flags);
    let (c, recs) = drive_uncancelled(c0, Seq::empty(), flags.map_values(|f: u64| Some(f)));
    assert forall|i: int| 0 <= i < flags.len() implies #[trigger] recs[i] == PageInfo {
        pfn: (start_pfn + i) as u64,
        flags: flags[i],
    } by {
        assert(recs[0 + i] == recs[i]);
    }
    assert forall|a: int, b: int| 0 <= a < b < recs.len() implies (#[trigger] recs[a]).pfn < (#[trigger] recs[b]).pfn by {
        assert(recs[a] == PageInfo { pfn: (start_pfn + a) as u64, flags: flags[a] });
        assert(recs[b] == PageInfo { pfn: (start_pfn + b) as u64, flags: flags[b] });
    }
}

} // verus!
