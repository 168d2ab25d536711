//! Snapshots of memory statistics over time, their differences, event
//! conditions on them, and page-cache monitoring around file operations.
use vstd::prelude::*;
use crate::meminfo::{MemoryStats, MemoryError, meminfo_stats};
use crate::text::{decimal_chars, signed_decimal_chars, push_decimal, push_signed_decimal};

verus! {

/// Memory statistics taken at a time, in milliseconds since the Unix epoch.
#[derive(Debug, Clone, Copy, PartialEq, Eq, Structural)]
pub struct MemorySnapshot {
    pub timestamp: u64,
    pub stats: MemoryStats,
}

impl MemorySnapshot {
    /// A snapshot of the statistics in `meminfo`, taken at `timestamp`.
    pub fn new(meminfo: &str, timestamp: u64) -> (r: Result<MemorySnapshot, MemoryError>)
        ensures
            meminfo_stats(meminfo@) matches Some(stats) ==> (r matches Ok(snap) && snap
                == (MemorySnapshot { timestamp, stats })),
            meminfo_stats(meminfo@) is None ==> r is Err,
    {
        match MemoryStats::parse_meminfo(meminfo) {
            Ok(stats) => Ok(MemorySnapshot { timestamp, stats }),
            Err(e) => Err(e),
        }
    }

    /// A snapshot with a given timestamp.
    pub fn with_timestamp(timestamp: u64, meminfo: &str) -> (r: Result<MemorySnapshot, MemoryError>)
        ensures
            meminfo_stats(meminfo@) matches Some(stats) ==> (r matches Ok(snap) && snap
                == (MemorySnapshot { timestamp, stats })),
            meminfo_stats(meminfo@) is None ==> r is Err,
    {
        MemorySnapshot::new(meminfo, timestamp)
    }
}

/// Changes between two snapshots, in KB, and the time between them.
#[derive(Debug, Clone, Copy, PartialEq, Eq, Structural)]
pub struct MemoryDiff {
    pub duration_ms: u64,
    pub mem_free_diff: i64,
    pub cached_diff: i64,
    pub buffers_diff: i64,
    pub inactive_file_diff: i64,
    pub active_file_diff: i64,
    pub dirty_diff: i64,
    pub writeback_diff: i64,
    pub page_cache_diff: i64,
}

pub open spec fn page_cache_of(s: MemoryStats) -> int {
    s.cached + s.buffers
}

impl MemoryDiff {
    /// What changed from `before` to `after`.
    pub fn between(before: &MemorySnapshot, after: &MemorySnapshot) -> (d: MemoryDiff)
        requires
            before.stats.within_signed(),
            after.stats.within_signed(),
        ensures
            d.duration_ms == if after.timestamp >= before.timestamp {
                after.timestamp - before.timestamp
            } else {
                0
            },
            d.mem_free_diff == after.stats.mem_free - before.stats.mem_free,
            d.cached_diff == after.stats.cached - before.stats.cached,
            d.buffers_diff == after.stats.buffers - before.stats.buffers,
            d.inactive_file_diff == after.stats.inactive_file - before.stats.inactive_file,
            d.active_file_diff == after.stats.active_file - before.stats.active_file,
            d.dirty_diff == after.stats.dirty - before.stats.dirty,
            d.writeback_diff == after.stats.writeback - before.stats.writeback,
            d.page_cache_diff == page_cache_of(after.stats) - page_cache_of(before.stats),
    {
        let a = after.stats;
        let b = before.stats;
        MemoryDiff {
            duration_ms: after.timestamp.saturating_sub(before.timestamp),
            mem_free_diff: a.mem_free as i64 - b.mem_free as i64,
            cached_diff: a.cached as i64 - b.cached as i64,
            buffers_diff: a.buffers as i64 - b.buffers as i64,
            inactive_file_diff: a.inactive_file as i64 - b.inactive_file as i64,
            active_file_diff: a.active_file as i64 - b.active_file as i64,
            dirty_diff: a.dirty as i64 - b.dirty as i64,
            writeback_diff: a.writeback as i64 - b.writeback as i64,
            page_cache_diff: a.page_cache_size() as i64 - b.page_cache_size() as i64,
        }
    }

    /// More memory is free than before.
    pub fn memory_was_freed(&self) -> (b: bool)
        ensures
            b == (self.mem_free_diff > 0),
    {
        self.mem_free_diff > 0
    }

    /// The page cache grew, a sign of file I/O.
    pub fn page_cache_increased(&self) -> (b: bool)
        ensures
            b == (self.page_cache_diff > 0),
    {
        self.page_cache_diff > 0
    }

    /// Dirty memory changed by more than 1 MB either way.
    pub fn has_dirty_activity(&self) -> (b: bool)
        ensures
            b == (self.dirty_diff > 1024 || self.dirty_diff < -1024),
    {
        self.dirty_diff > 1024 || self.dirty_diff < -1024
    }

    /// One line: duration, then the signed changes of free, cached,
    /// inactive file-backed and dirty memory.
    pub fn format_summary(&self) -> (s: String)
        ensures
            s@ == "Duration: "@ + decimal_chars(self.duration_ms as nat) + "ms | Free: "@
                + signed_decimal_chars(self.mem_free_diff as int) + "KB | Cache: "@
                + signed_decimal_chars(self.cached_diff as int) + "KB | Inactive(file): "@
                + signed_decimal_chars(self.inactive_file_diff as int) + "KB | Dirty: "@
                + signed_decimal_chars(self.dirty_diff as int) + "KB"@,
    {
        let mut s = String::from_str("Duration: ");
        push_decimal(&mut s, self.duration_ms);
        s.append("ms | Free: ");
        push_signed_decimal(&mut s, self.mem_free_diff);
        s.append("KB | Cache: ");
        push_signed_decimal(&mut s, self.cached_diff);
        s.append("KB | Inactive(file): ");
        push_signed_decimal(&mut s, self.inactive_file_diff);
        s.append("KB | Dirty: ");
        push_signed_decimal(&mut s, self.dirty_diff);
        s.append("KB");
        s
    }
}

/// The conditions an event monitor can watch for.
#[derive(Debug, Clone, Copy, PartialEq, Eq, Structural)]
pub enum ConditionKind {
    /// Less than a tenth of total memory is available.
    LowMemory,
    /// The page cache grew by more than 100 MB since the previous check.
    HighCacheGrowth,
    /// Dirty memory exceeds a twentieth of total memory.
    HighDirtyPages,
    /// Available memory grew by more than 50 MB since the previous check.
    MemoryPressureRelief,
    /// Free memory is below the given number of KB.
    FreeBelow(u64),
}

pub open spec fn condition_holds(kind: ConditionKind, cur: MemoryStats, prev: Option<MemoryStats>) -> bool {
    match kind {
        ConditionKind::LowMemory => cur.mem_available * 10 < cur.mem_total,
        ConditionKind::HighCacheGrowth => match prev {
            Some(p) => page_cache_of(cur) > page_cache_of(p) + 100 * 1024,
            None => false,
        },
        ConditionKind::HighDirtyPages => cur.dirty * 20 > cur.mem_total,
        ConditionKind::MemoryPressureRelief => match prev {
            Some(p) => cur.mem_available > p.mem_available + 50 * 1024,
            None => false,
        },
        ConditionKind::FreeBelow(limit) => cur.mem_free < limit,
    }
}

/// Whether `kind` holds of `cur`, given the statistics of the previous check.
pub fn evaluate_condition(kind: ConditionKind, cur: &MemoryStats, prev: Option<MemoryStats>) -> (b: bool)
    ensures
        b == condition_holds(kind, *cur, prev),
{
    match kind {
        ConditionKind::LowMemory => (cur.mem_available as u128) * 10 < cur.mem_total as u128,
        ConditionKind::HighCacheGrowth => match prev {
            Some(p) => cur.cached as u128 + cur.buffers as u128 > p.cached as u128 + p.buffers as u128
                + 100 * 1024,
            None => false,
        },
        ConditionKind::HighDirtyPages => (cur.dirty as u128) * 20 > cur.mem_total as u128,
        ConditionKind::MemoryPressureRelief => match prev {
            Some(p) => cur.mem_available as u128 > p.mem_available as u128 + 50 * 1024,
            None => false,
        },
        ConditionKind::FreeBelow(limit) => cur.mem_free < limit,
    }
}

/// A named condition, and whether it held at the last check.
#[derive(Debug)]
pub struct MemoryCondition {
    pub name: String,
    pub condition: ConditionKind,
    pub triggered: bool,
}

/// Names, in order, of the conditions among the first `n` that hold now and
/// did not at the previous check.
pub open spec fn newly_triggered(
    conds: Seq<MemoryCondition>,
    cur: MemoryStats,
    prev: Option<MemoryStats>,
    n: int,
) -> Seq<Seq<char>>
    decreases n,
{
    if n <= 0 {
        Seq::empty()
    } else if condition_holds(conds[n - 1].condition, cur, prev) && !conds[n - 1].triggered {
        newly_triggered(conds, cur, prev, n - 1).push(conds[n - 1].name@)
    } else {
        newly_triggered(conds, cur, prev, n - 1)
    }
}

/// Watches conditions over successive snapshots and reports each one when it
/// starts to hold.
pub struct EventMonitor {
    pub conditions: Vec<MemoryCondition>,
    pub last_snapshot: Option<MemorySnapshot>,
}

impl EventMonitor {
    pub fn new() -> (m: EventMonitor)
        ensures
            m.conditions@.len() == 0,
            m.last_snapshot is None,
    {
        EventMonitor { conditions: Vec::new(), last_snapshot: None }
    }

    /// Watches for `condition` under `name`.
    pub fn add_condition(&mut self, name: String, condition: ConditionKind)
        ensures
            final(self).conditions@ == old(self).conditions@.push(
                MemoryCondition { name, condition, triggered: false },
            ),
            final(self).last_snapshot == old(self).last_snapshot,
    {
        self.conditions.push(MemoryCondition { name, condition, triggered: false });
    }

    /// Checks every condition against `current` and the previous snapshot;
    /// returns the names of those that hold now and did not before.
    pub fn check_conditions(&mut self, current: MemorySnapshot) -> (fired: Vec<String>)
        ensures
            ({
                let prev = match old(self).last_snapshot {
                    Some(s) => Some(s.stats),
                    None => None,
                };
                &&& fired@.map_values(|s: String| s@) == newly_triggered(
                    old(self).conditions@,
                    current.stats,
                    prev,
                    old(self).conditions@.len() as int,
                )
                &&& final(self).conditions@.len() == old(self).conditions@.len()
                &&& forall|k: int|
                    0 <= k < old(self).conditions@.len() ==> {
                        &&& (#[trigger] final(self).conditions@[k]).name == old(self).conditions@[k].name
                        &&& final(self).conditions@[k].condition == old(self).conditions@[k].condition
                        &&& final(self).conditions@[k].triggered == condition_holds(
                            old(self).conditions@[k].condition,
                            current.stats,
                            prev,
                        )
                    }
            }),
            final(self).last_snapshot == Some(current),
    {
        let prev = match self.last_snapshot {
            Some(s) => Some(s.stats),
            None => None,
        };
        let ghost old_conds = self.conditions@;
        let mut fired: Vec<String> = Vec::new();
        let mut i: usize = 0;
        while i < self.conditions.len()
            invariant
                i <= self.conditions@.len(),
                self.conditions@.len() == old_conds.len(),
                fired@.map_values(|s: String| s@) == newly_triggered(old_conds, current.stats, prev, i as int),
                forall|k: int|
                    i <= k < old_conds.len() ==> #[trigger] self.conditions@[k] == old_conds[k],
                forall|k: int|
                    0 <= k < i ==> {
                        &&& (#[trigger] self.conditions@[k]).name == old_conds[k].name
                        &&& self.conditions@[k].condition == old_conds[k].condition
                        &&& self.conditions@[k].triggered == condition_holds(
                            old_conds[k].condition,
                            current.stats,
                            prev,
                        )
                    },
            decreases old_conds.len() - i,
        {
            let kind = self.conditions[i].condition;
            let was = self.conditions[i].triggered;
            let holds = evaluate_condition(kind, &current.stats, prev);
            let name = self.conditions[i].name.clone();
            if holds && !was {
                let ghost before = fired@;
                fired.push(name.clone());
                proof {
                    assert(fired@.map_values(|s: String| s@) == before.map_values(|s: String| s@).push(name@));
                }
            }
            self.conditions.set(i, MemoryCondition { name, condition: kind, triggered: holds });
            i = i + 1;
        }
        self.last_snapshot = Some(current);
        fired
    }

    /// Watches for low memory, fast page-cache growth, many dirty pages and
    /// relief of memory pressure.
    pub fn add_common_conditions(&mut self)
        ensures
            final(self).conditions@.len() == old(self).conditions@.len() + 4,
            forall|k: int|
                0 <= k < old(self).conditions@.len() ==> #[trigger] final(self).conditions@[k]
                    == old(self).conditions@[k],
            final(self).conditions@[old(self).conditions@.len() as int] == (MemoryCondition {
                name: final(self).conditions@[old(self).conditions@.len() as int].name,
                condition: ConditionKind::LowMemory,
                triggered: false,
            }),
            final(self).conditions@[old(self).conditions@.len() as int].name@ == "low_memory"@,
            final(self).conditions@[old(self).conditions@.len() as int + 1].condition
                == ConditionKind::HighCacheGrowth,
            final(self).conditions@[old(self).conditions@.len() as int + 1].name@ == "high_cache_growth"@,
            final(self).conditions@[old(self).conditions@.len() as int + 2].condition
                == ConditionKind::HighDirtyPages,
            final(self).conditions@[old(self).conditions@.len() as int + 2].name@ == "high_dirty_pages"@,
            final(self).conditions@[old(self).conditions@.len() as int + 3].condition
                == ConditionKind::MemoryPressureRelief,
            final(self).conditions@[old(self).conditions@.len() as int + 3].name@
                == "memory_pressure_relief"@,
            forall|k: int|
                old(self).conditions@.len() <= k < final(self).conditions@.len() ==> !(
                #[trigger] final(self).conditions@[k]).triggered,
            final(self).last_snapshot == old(self).last_snapshot,
    {
        self.add_condition(String::from_str("low_memory"), ConditionKind::LowMemory);
        self.add_condition(String::from_str("high_cache_growth"), ConditionKind::HighCacheGrowth);
        self.add_condition(String::from_str("high_dirty_pages"), ConditionKind::HighDirtyPages);
        self.add_condition(
            String::from_str("memory_pressure_relief"),
            ConditionKind::MemoryPressureRelief,
        );
    }
}

/// Changes of memory across one file operation, in KB.
#[derive(Debug, Clone, Copy, PartialEq, Eq, Structural)]
pub struct MemoryImpact {
    pub free_memory_change_kb: i64,
    pub cache_change_kb: i64,
    pub inactive_file_change_kb: i64,
    pub active_file_change_kb: i64,
    pub dirty_change_kb: i64,
    pub writeback_change_kb: i64,
}

impl MemoryImpact {
    pub fn calculate(before: &MemoryStats, after: &MemoryStats) -> (m: MemoryImpact)
        requires
            before.within_signed(),
            after.within_signed(),
        ensures
            m.free_memory_change_kb == after.mem_free - before.mem_free,
            m.cache_change_kb == page_cache_of(*after) - page_cache_of(*before),
            m.inactive_file_change_kb == after.inactive_file - before.inactive_file,
            m.active_file_change_kb == after.active_file - before.active_file,
            m.dirty_change_kb == after.dirty - before.dirty,
            m.writeback_change_kb == after.writeback - before.writeback,
    {
        MemoryImpact {
            free_memory_change_kb: after.mem_free as i64 - before.mem_free as i64,
            cache_change_kb: after.page_cache_size() as i64 - before.page_cache_size() as i64,
            inactive_file_change_kb: after.inactive_file as i64 - before.inactive_file as i64,
            active_file_change_kb: after.active_file as i64 - before.active_file as i64,
            dirty_change_kb: after.dirty as i64 - before.dirty as i64,
            writeback_change_kb: after.writeback as i64 - before.writeback as i64,
        }
    }
}

/// Snapshots around one file operation, how long it took, and its impact.
#[derive(Debug, Clone, Copy)]
pub struct FileOperationAnalysis {
    pub before: MemorySnapshot,
    pub after: MemorySnapshot,
    pub operation_duration: std::time::Duration,
    pub memory_impact: MemoryImpact,
}

impl FileOperationAnalysis {
    pub fn new(before: MemorySnapshot, after: MemorySnapshot, operation_duration: std::time::Duration) -> (a: FileOperationAnalysis)
        requires
            before.stats.within_signed(),
            after.stats.within_signed(),
        ensures
            a.before == before,
            a.after == after,
            a.operation_duration == operation_duration,
            a.memory_impact.free_memory_change_kb == after.stats.mem_free - before.stats.mem_free,
            a.memory_impact.cache_change_kb == page_cache_of(after.stats) - page_cache_of(before.stats),
            a.memory_impact.inactive_file_change_kb == after.stats.inactive_file - before.stats.inactive_file,
            a.memory_impact.active_file_change_kb == after.stats.active_file - before.stats.active_file,
            a.memory_impact.dirty_change_kb == after.stats.dirty - before.stats.dirty,
            a.memory_impact.writeback_change_kb == after.stats.writeback - before.stats.writeback,
    {
        let memory_impact = MemoryImpact::calculate(&before.stats, &after.stats);
        FileOperationAnalysis { before, after, operation_duration, memory_impact }
    }

    /// The page cache grew by more than 1 MB.
    pub fn caused_cache_growth(&self) -> (b: bool)
        ensures
            b == (self.memory_impact.cache_change_kb > 1024),
    {
        self.memory_impact.cache_change_kb > 1024
    }

    /// More memory was free afterwards.
    pub fn freed_memory(&self) -> (b: bool)
        ensures
            b == (self.memory_impact.free_memory_change_kb > 0),
    {
        self.memory_impact.free_memory_change_kb > 0
    }
}

/// Page-cache figures over a series of snapshots, in KB.
#[derive(Debug, Clone, Copy, PartialEq, Eq, Structural)]
pub struct PageCacheSummary {
    pub initial_cache_kb: u64,
    pub final_cache_kb: u64,
    pub cache_change_kb: i64,
    pub max_cache_kb: u64,
    pub min_cache_kb: u64,
    pub max_inactive_file_kb: u64,
    pub snapshot_count: usize,
}

impl Default for PageCacheSummary {
    fn default() -> (s: PageCacheSummary)
        ensures
            s == (PageCacheSummary {
                initial_cache_kb: 0,
                final_cache_kb: 0,
                cache_change_kb: 0,
                max_cache_kb: 0,
                min_cache_kb: 0,
                max_inactive_file_kb: 0,
                snapshot_count: 0,
            }),
    {
        PageCacheSummary {
            initial_cache_kb: 0,
            final_cache_kb: 0,
            cache_change_kb: 0,
            max_cache_kb: 0,
            min_cache_kb: 0,
            max_inactive_file_kb: 0,
            snapshot_count: 0,
        }
    }
}

/// Largest page cache among the first `n` snapshots (`n` at least one).
pub open spec fn max_cache(s: Seq<MemorySnapshot>, n: int) -> int
    decreases n,
{
    if n <= 1 {
        page_cache_of(s[0].stats)
    } else {
        let m = max_cache(s, n - 1);
        if page_cache_of(s[n - 1].stats) > m {
            page_cache_of(s[n - 1].stats)
        } else {
            m
        }
    }
}

/// Smallest page cache among the first `n` snapshots (`n` at least one).
pub open spec fn min_cache(s: Seq<MemorySnapshot>, n: int) -> int
    decreases n,
{
    if n <= 1 {
        page_cache_of(s[0].stats)
    } else {
        let m = min_cache(s, n - 1);
        if page_cache_of(s[n - 1].stats) < m {
            page_cache_of(s[n - 1].stats)
        } else {
            m
        }
    }
}

/// Largest inactive file-backed memory among the first `n` snapshots (`n` at least one).
pub open spec fn max_inactive_file(s: Seq<MemorySnapshot>, n: int) -> int
    decreases n,
{
    if n <= 1 {
        s[0].stats.inactive_file as int
    } else {
        let m = max_inactive_file(s, n - 1);
        if s[n - 1].stats.inactive_file > m {
            s[n - 1].stats.inactive_file as int
        } else {
            m
        }
    }
}

/// Snapshot history kept around file operations.
pub struct PageCacheMonitor {
    pub initial_snapshot: MemorySnapshot,
    pub snapshots: Vec<MemorySnapshot>,
}

impl PageCacheMonitor {
    pub open spec fn all_within_signed(&self) -> bool {
        forall|k: int| 0 <= k < self.snapshots@.len() ==> (#[trigger] self.snapshots@[k]).stats.within_signed()
    }

    /// A monitor whose history starts with `initial`.
    pub fn new(initial: MemorySnapshot) -> (m: PageCacheMonitor)
        ensures
            m.initial_snapshot == initial,
            m.snapshots@ == seq![initial],
    {
        let mut snapshots: Vec<MemorySnapshot> = Vec::new();
        snapshots.push(initial);
        PageCacheMonitor { initial_snapshot: initial, snapshots }
    }

    /// Adds `snapshot` to the history and returns it.
    pub fn take_snapshot(&mut self, snapshot: MemorySnapshot) -> (s: MemorySnapshot)
        ensures
            final(self).snapshots@ == old(self).snapshots@.push(snapshot),
            final(self).initial_snapshot == old(self).initial_snapshot,
            s == snapshot,
    {
        self.snapshots.push(snapshot);
        snapshot
    }

    /// The most recent snapshot.
    pub fn latest_snapshot(&self) -> (s: &MemorySnapshot)
        requires
            self.snapshots@.len() > 0,
        ensures
            *s == self.snapshots@.last(),
    {
        &self.snapshots[self.snapshots.len() - 1]
    }

    /// Records the snapshots taken before and after a file operation that
    /// took `operation_duration`, and analyses its impact.
    pub fn analyze_file_operation(
        &mut self,
        before: MemorySnapshot,
        after: MemorySnapshot,
        operation_duration: std::time::Duration,
    ) -> (a: FileOperationAnalysis)
        requires
            before.stats.within_signed(),
            after.stats.within_signed(),
        ensures
            final(self).snapshots@ == old(self).snapshots@.push(before).push(after),
            final(self).initial_snapshot == old(self).initial_snapshot,
            a.before == before,
            a.after == after,
            a.operation_duration == operation_duration,
            a.memory_impact.cache_change_kb == page_cache_of(after.stats) - page_cache_of(before.stats),
            a.memory_impact.free_memory_change_kb == after.stats.mem_free - before.stats.mem_free,
    {
        self.snapshots.push(before);
        self.snapshots.push(after);
        FileOperationAnalysis::new(before, after, operation_duration)
    }

    /// First, last, largest and smallest page cache over the history, the
    /// largest inactive file-backed memory, and the number of snapshots.
    pub fn get_cache_summary(&self) -> (r: PageCacheSummary)
        requires
            self.all_within_signed(),
        ensures
            self.snapshots@.len() == 0 ==> r == (PageCacheSummary {
                initial_cache_kb: 0,
                final_cache_kb: 0,
                cache_change_kb: 0,
                max_cache_kb: 0,
                min_cache_kb: 0,
                max_inactive_file_kb: 0,
                snapshot_count: 0,
            }),
            self.snapshots@.len() > 0 ==> {
                let s = self.snapshots@;
                let n = s.len() as int;
                &&& r.initial_cache_kb == page_cache_of(s[0].stats)
                &&& r.final_cache_kb == page_cache_of(s[n - 1].stats)
                &&& r.cache_change_kb == page_cache_of(s[n - 1].stats) - page_cache_of(s[0].stats)
                &&& r.max_cache_kb == max_cache(s, n)
                &&& r.min_cache_kb == min_cache(s, n)
                &&& r.max_inactive_file_kb == max_inactive_file(s, n)
                &&& r.snapshot_count == n
            },
    {
        let n = self.snapshots.len();
        if n == 0 {
            return PageCacheSummary::default();
        }
        let first = self.snapshots[0].stats;
        let last = self.snapshots[n - 1].stats;
        assert(self.snapshots@[0].stats.within_signed());
        assert(self.snapshots@[n - 1].stats.within_signed());
        let initial = first.page_cache_size();
        let fin = last.page_cache_size();
        let mut max_c = initial;
        let mut min_c = initial;
        let mut max_inactive = first.inactive_file;
        let mut i: usize = 1;
        while i < n
            invariant
                1 <= i <= n,
                n == self.snapshots@.len(),
                self.all_within_signed(),
                max_c == max_cache(self.snapshots@, i as int),
                min_c == min_cache(self.snapshots@, i as int),
                max_inactive == max_inactive_file(self.snapshots@, i as int),
            decreases n - i,
        {
            let st = self.snapshots[i].stats;
            assert(self.snapshots@[i as int].stats.within_signed());
            let c = st.page_cache_size();
            if c > max_c {
                max_c = c;
            }
            if c < min_c {
                min_c = c;
            }
            if st.inactive_file > max_inactive {
                max_inactive = st.inactive_file;
            }
            i = i + 1;
        }
        PageCacheSummary {
            initial_cache_kb: initial,
            final_cache_kb: fin,
            cache_change_kb: fin as i64 - initial as i64,
            max_cache_kb: max_c,
            min_cache_kb: min_c,
            max_inactive_file_kb: max_inactive,
            snapshot_count: n,
        }
    }
}

/// How hard-pressed memory is, by the share of total memory available.
#[derive(Debug, Clone, Copy, PartialEq, Eq, Structural)]
pub enum PressureLevel {
    /// More than half is available.
    Low,
    /// More than a fifth, up to half.
    Medium,
    /// More than a tenth, up to a fifth.
    High,
    /// A tenth or less.
    Critical,
}

pub open spec fn spec_pressure_level(s: MemoryStats) -> PressureLevel {
    if s.mem_available * 2 > s.mem_total {
        PressureLevel::Low
    } else if s.mem_available * 5 > s.mem_total {
        PressureLevel::Medium
    } else if s.mem_available * 10 > s.mem_total {
        PressureLevel::High
    } else {
        PressureLevel::Critical
    }
}

/// The pressure level of `stats`: the available share compared with one
/// half, one fifth and one tenth.
pub fn pressure_level(stats: &MemoryStats) -> (p: PressureLevel)
    ensures
        p == spec_pressure_level(*stats),
{
    let available = stats.mem_available as u128;
    let total = stats.mem_total as u128;
    if available * 2 > total {
        PressureLevel::Low
    } else if available * 5 > total {
        PressureLevel::Medium
    } else if available * 10 > total {
        PressureLevel::High
    } else {
        PressureLevel::Critical
    }
}

/// Direction of a series of values.
#[derive(Debug, Clone, Copy, PartialEq, Eq, Structural)]
pub enum TrendDirection {
    Increasing,
    Decreasing,
    Stable,
}

pub open spec fn spec_trend_direction(initial: u64, final_value: u64) -> TrendDirection {
    let change = final_value - initial;
    let band = initial / 100;
    if change > band {
        TrendDirection::Increasing
    } else if change < -band {
        TrendDirection::Decreasing
    } else {
        TrendDirection::Stable
    }
}

/// Direction of a change from `initial` to `final_value`: a change of more
/// than one percent of `initial`, rounded down, either way, else stable.
pub fn trend_direction(initial: u64, final_value: u64) -> (d: TrendDirection)
    ensures
        d == spec_trend_direction(initial, final_value),
{
    let change = final_value as i128 - initial as i128;
    let band = (initial / 100) as i128;
    if change > band {
        TrendDirection::Increasing
    } else if change < -band {
        TrendDirection::Decreasing
    } else {
        TrendDirection::Stable
    }
}

} // verus!
