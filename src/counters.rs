//! Aggregate counters: per-flag and per-category hit counts over many records.
use vstd::prelude::*;
use crate::catalog::{
    FlagCategory, NUM_FLAGS, NUM_CATEGORIES, spec_flag_category, spec_category_index, flag_mask,
    flag_category, category_index,
};
use crate::page::{PageInfo, has_flag};

verus! {

/// Records past this many are never counted: every scan stops there.
pub const SAFETY_LIMIT: u64 = 100_000_000;

/// Number of catalog entries below `n` that match `flags` and belong to the
/// category counted at position `k`.
pub open spec fn category_hits_upto(flags: u64, k: int, n: int) -> nat
    decreases n,
{
    if n <= 0 {
        0
    } else {
        category_hits_upto(flags, k, n - 1) + if has_flag(flags, n - 1) && spec_category_index(
            spec_flag_category(n - 1),
        ) == k {
            1nat
        } else {
            0nat
        }
    }
}

/// Number of matched catalog entries of the category counted at position `k`.
pub open spec fn category_hits(flags: u64, k: int) -> nat {
    category_hits_upto(flags, k, NUM_FLAGS as int)
}

proof fn lemma_category_hits_bound(flags: u64, k: int, n: int)
    requires
        0 <= n,
    ensures
        category_hits_upto(flags, k, n) <= n,
    decreases n,
{
    if n > 0 {
        lemma_category_hits_bound(flags, k, n - 1);
    }
}

/// Number of records among the first `n` that match catalog entry `i`.
pub open spec fn records_with_flag(records: Seq<PageInfo>, i: int, n: int) -> nat
    decreases n,
{
    if n <= 0 {
        0
    } else {
        records_with_flag(records, i, n - 1) + if has_flag(records[n - 1].flags, i) {
            1nat
        } else {
            0nat
        }
    }
}

/// Hits of the category counted at position `k` over the first `n` records.
pub open spec fn category_hits_in(records: Seq<PageInfo>, k: int, n: int) -> nat
    decreases n,
{
    if n <= 0 {
        0
    } else {
        category_hits_in(records, k, n - 1) + category_hits(records[n - 1].flags, k)
    }
}

/// Number of records among the first `n` with some bit set.
pub open spec fn records_with_any_flag(records: Seq<PageInfo>, n: int) -> nat
    decreases n,
{
    if n <= 0 {
        0
    } else {
        records_with_any_flag(records, n - 1) + if records[n - 1].flags != 0 {
            1nat
        } else {
            0nat
        }
    }
}

/// Per-flag and per-category hit counts. A record adds one to the count of
/// every flag it matches, and one to its category's count for each such flag,
/// so a record with several flags of one category counts several times there.
pub struct FlagCounters {
    pub flag_counts: Vec<u64>,
    pub category_counts: Vec<u64>,
    pub total_scanned: u64,
    pub total_with_any_flag: u64,
}

impl FlagCounters {
    pub open spec fn wf(&self) -> bool {
        &&& self.flag_counts@.len() == NUM_FLAGS
        &&& self.category_counts@.len() == NUM_CATEGORIES
        &&& self.total_with_any_flag <= self.total_scanned <= SAFETY_LIMIT
        &&& forall|i: int|
            0 <= i < NUM_FLAGS ==> #[trigger] self.flag_counts@[i] <= self.total_with_any_flag
        &&& forall|k: int|
            0 <= k < NUM_CATEGORIES ==> #[trigger] self.category_counts@[k] <= NUM_FLAGS
                * self.total_scanned
    }

    /// Counters that have seen nothing.
    pub fn new() -> (c: FlagCounters)
        ensures
            c.wf(),
            c.total_scanned == 0,
            c.total_with_any_flag == 0,
            forall|i: int| 0 <= i < NUM_FLAGS ==> #[trigger] c.flag_counts@[i] == 0,
            forall|k: int| 0 <= k < NUM_CATEGORIES ==> #[trigger] c.category_counts@[k] == 0,
    {
        let mut flag_counts: Vec<u64> = Vec::new();
        let mut i: usize = 0;
        while i < NUM_FLAGS
            invariant
                i <= NUM_FLAGS,
                flag_counts@.len() == i,
                forall|j: int| 0 <= j < i ==> #[trigger] flag_counts@[j] == 0,
            decreases NUM_FLAGS - i,
        {
            flag_counts.push(0);
            i = i + 1;
        }
        let mut category_counts: Vec<u64> = Vec::new();
        let mut k: usize = 0;
        while k < NUM_CATEGORIES
            invariant
                k <= NUM_CATEGORIES,
                category_counts@.len() == k,
                forall|j: int| 0 <= j < k ==> #[trigger] category_counts@[j] == 0,
            decreases NUM_CATEGORIES - k,
        {
            category_counts.push(0);
            k = k + 1;
        }
        FlagCounters { flag_counts, category_counts, total_scanned: 0, total_with_any_flag: 0 }
    }

    /// Counts one record's flag word.
    pub fn observe(&mut self, flags: u64)
        requires
            old(self).wf(),
            old(self).total_scanned < SAFETY_LIMIT,
        ensures
            final(self).wf(),
            final(self).total_scanned == old(self).total_scanned + 1,
            final(self).total_with_any_flag == old(self).total_with_any_flag + if flags != 0 {
                1int
            } else {
                0int
            },
            forall|i: int|
                0 <= i < NUM_FLAGS ==> #[trigger] final(self).flag_counts@[i] == old(
                    self,
                ).flag_counts@[i] + if has_flag(flags, i) {
                    1int
                } else {
                    0int
                },
            forall|k: int|
                0 <= k < NUM_CATEGORIES ==> #[trigger] final(self).category_counts@[k] == old(
                    self,
                ).category_counts@[k] + category_hits(flags, k),
    {
        self.total_scanned = self.total_scanned + 1;
        if flags != 0 {
            self.total_with_any_flag = self.total_with_any_flag + 1;
        }
        let ghost old_flags = self.flag_counts@;
        let ghost old_cats = self.category_counts@;
        let mut i: usize = 0;
        while i < NUM_FLAGS
            invariant
                i <= NUM_FLAGS,
                self.flag_counts@.len() == NUM_FLAGS,
                self.category_counts@.len() == NUM_CATEGORIES,
                old_flags.len() == NUM_FLAGS,
                old_cats.len() == NUM_CATEGORIES,
                self.total_scanned <= SAFETY_LIMIT,
                self.total_with_any_flag <= self.total_scanned,
                forall|j: int| 0 <= j < NUM_FLAGS ==> old_flags[j] <= old(self).total_with_any_flag,
                forall|k: int|
                    0 <= k < NUM_CATEGORIES ==> old_cats[k] <= NUM_FLAGS * old(self).total_scanned,
                self.total_scanned == old(self).total_scanned + 1,
                self.total_with_any_flag == old(self).total_with_any_flag + if flags != 0 {
                    1int
                } else {
                    0int
                },
                forall|j: int|
                    0 <= j < i ==> #[trigger] self.flag_counts@[j] == old_flags[j] + if has_flag(
                        flags,
                        j,
                    ) {
                        1int
                    } else {
                        0int
                    },
                forall|j: int| i <= j < NUM_FLAGS ==> #[trigger] self.flag_counts@[j] == old_flags[j],
                forall|k: int|
                    0 <= k < NUM_CATEGORIES ==> #[trigger] self.category_counts@[k] == old_cats[k]
                        + category_hits_upto(flags, k, i as int),
            decreases NUM_FLAGS - i,
        {
            proof {
                assert forall|k: int| 0 <= k < NUM_CATEGORIES implies category_hits_upto(flags, k, i as int) <= i by {
                    lemma_category_hits_bound(flags, k, i as int);
                }
            }
            if flags & flag_mask(i) != 0 {
                proof {
                    lemma_nonzero_if_flag(flags, i as int);
                }
                let n = self.flag_counts[i] + 1;
                self.flag_counts.set(i, n);
                let k = category_index(flag_category(i));
                let m = self.category_counts[k] + 1;
                self.category_counts.set(k, m);
            }
            i = i + 1;
        }
        proof {
            assert forall|k: int| 0 <= k < NUM_CATEGORIES implies #[trigger] self.category_counts@[k]
                <= NUM_FLAGS * self.total_scanned by {
                lemma_category_hits_bound(flags, k, NUM_FLAGS as int);
            }
            assert forall|j: int| 0 <= j < NUM_FLAGS implies #[trigger] self.flag_counts@[j]
                <= self.total_with_any_flag by {
                if has_flag(flags, j) {
                    lemma_nonzero_if_flag(flags, j);
                }
            }
        }
    }

    /// Counts every record of `records`, in order.
    pub fn observe_all(&mut self, records: &Vec<PageInfo>)
        requires
            old(self).wf(),
            old(self).total_scanned + records@.len() <= SAFETY_LIMIT,
        ensures
            final(self).wf(),
            final(self).total_scanned == old(self).total_scanned + records@.len(),
            final(self).total_with_any_flag == old(self).total_with_any_flag + records_with_any_flag(
                records@,
                records@.len() as int,
            ),
            forall|i: int|
                0 <= i < NUM_FLAGS ==> #[trigger] final(self).flag_counts@[i] == old(
                    self,
                ).flag_counts@[i] + records_with_flag(records@, i, records@.len() as int),
            forall|k: int|
                0 <= k < NUM_CATEGORIES ==> #[trigger] final(self).category_counts@[k] == old(
                    self,
                ).category_counts@[k] + category_hits_in(records@, k, records@.len() as int),
    {
        let mut i: usize = 0;
        while i < records.len()
            invariant
                i <= records@.len(),
                self.wf(),
                self.total_scanned == old(self).total_scanned + i,
                old(self).total_scanned + records@.len() <= SAFETY_LIMIT,
                self.total_with_any_flag == old(self).total_with_any_flag + records_with_any_flag(
                    records@,
                    i as int,
                ),
                forall|j: int|
                    0 <= j < NUM_FLAGS ==> #[trigger] self.flag_counts@[j] == old(
                        self,
                    ).flag_counts@[j] + records_with_flag(records@, j, i as int),
                forall|k: int|
                    0 <= k < NUM_CATEGORIES ==> #[trigger] self.category_counts@[k] == old(
                        self,
                    ).category_counts@[k] + category_hits_in(records@, k, i as int),
            decreases records@.len() - i,
        {
            self.observe(records[i].flags);
            i = i + 1;
        }
    }
}

proof fn lemma_nonzero_if_flag(flags: u64, i: int)
    requires
        has_flag(flags, i),
    ensures
        flags != 0,
{
    let m = crate::catalog::spec_flag_mask(i);
    assert(flags & m != 0 ==> flags != 0) by (bit_vector);
}

/// Position of a count in a ranking: larger counts first, equal counts by position.
pub open spec fn ranked_before(a: (usize, u64), b: (usize, u64)) -> bool {
    a.1 > b.1 || (a.1 == b.1 && a.0 < b.0)
}

/// The non-zero entries of `counts` as (position, count) pairs, largest count
/// first and equal counts in position order.
pub fn rank_counts(counts: &Vec<u64>) -> (ranked: Vec<(usize, u64)>)
    ensures
        forall|a: int, b: int|
            0 <= a < b < ranked@.len() ==> ranked_before(#[trigger] ranked@[a], #[trigger] ranked@[b]),
        forall|k: int|
            0 <= k < ranked@.len() ==> (#[trigger] ranked@[k]).0 < counts@.len() && ranked@[k].1
                == counts@[ranked@[k].0 as int] && ranked@[k].1 > 0,
        forall|j: int|
            0 <= j < counts@.len() && #[trigger] counts@[j] > 0 ==> exists|k: int|
                0 <= k < ranked@.len() && (#[trigger] ranked@[k]).0 == j,
{
    let mut ranked: Vec<(usize, u64)> = Vec::new();
    let mut i: usize = 0;
    while i < counts.len()
        invariant
            i <= counts@.len(),
            forall|a: int, b: int|
                0 <= a < b < ranked@.len() ==> ranked_before(#[trigger] ranked@[a], #[trigger] ranked@[b]),
            forall|k: int|
                0 <= k < ranked@.len() ==> (#[trigger] ranked@[k]).0 < i && ranked@[k].1
                    == counts@[ranked@[k].0 as int] && ranked@[k].1 > 0,
            forall|j: int|
                0 <= j < i && #[trigger] counts@[j] > 0 ==> exists|k: int|
                    0 <= k < ranked@.len() && (#[trigger] ranked@[k]).0 == j,
        decreases counts@.len() - i,
    {
        let c = counts[i];
        if c > 0 {
            let mut p: usize = 0;
            while p < ranked.len() && ranked[p].1 >= c
                invariant
                    p <= ranked@.len(),
                    forall|q: int| 0 <= q < p ==> (#[trigger] ranked@[q]).1 >= c,
                decreases ranked@.len() - p,
            {
                p = p + 1;
            }
            let ghost before = ranked@;
            ranked.insert(p, (i, c));
            proof {
                assert(ranked@ == before.insert(p as int, (i, c)));
                assert forall|j: int| 0 <= j <= i && #[trigger] counts@[j] > 0 implies exists|k: int|
                    0 <= k < ranked@.len() && (#[trigger] ranked@[k]).0 == j by {
                    if j == i {
                        assert(ranked@[p as int].0 == j);
                    } else {
                        let k = choose|k: int| 0 <= k < before.len() && (#[trigger] before[k]).0 == j;
                        if k < p {
                            assert(ranked@[k].0 == j);
                        } else {
                            assert(ranked@[k + 1].0 == j);
                        }
                    }
                }
            }
        }
        i = i + 1;
    }
    ranked
}

/// Length of a histogram bar of `width` cells for `count` against the
/// largest count: proportional and rounded down, but at least one cell for a
/// non-zero count.
pub fn histogram_bar_length(count: u64, max_count: u64, width: u64) -> (len: u64)
    requires
        count <= max_count,
        max_count > 0,
    ensures
        count == 0 ==> len == 0,
        count > 0 ==> len == if (count as int * width as int) / max_count as int >= 1 {
            (count as int * width as int) / max_count as int
        } else {
            1
        },
        len <= width || len == 1,
{
    if count == 0 {
        return 0;
    }
    assert((count as int * width as int) / max_count as int <= width) by (nonlinear_arith)
        requires
            count <= max_count,
            max_count > 0,
    ;
    assert(count as u128 * width as u128 <= u128::MAX) by (nonlinear_arith)
        requires
            count <= u64::MAX,
            width <= u64::MAX,
    ;
    let scaled = (count as u128 * width as u128 / max_count as u128) as u64;
    if scaled >= 1 { scaled } else { 1 }
}

/// Number of records among the first `n` whose category set contains the
/// category counted at position `k`.
pub open spec fn pages_with_category_upto(records: Seq<PageInfo>, k: int, n: int) -> nat
    decreases n,
{
    if n <= 0 {
        0
    } else {
        pages_with_category_upto(records, k, n - 1) + if crate::page::category_present(
            records[n - 1].flags,
            crate::catalog::spec_category_at(k),
        ) {
            1nat
        } else {
            0nat
        }
    }
}

/// For each category, the number of records whose category set contains it;
/// a record counts once per category however many of its flags fall there.
pub fn pages_per_category(records: &Vec<PageInfo>) -> (counts: Vec<u64>)
    ensures
        counts@.len() == NUM_CATEGORIES,
        forall|k: int|
            0 <= k < NUM_CATEGORIES ==> #[trigger] counts@[k] == pages_with_category_upto(
                records@,
                k,
                records@.len() as int,
            ),
{
    let mut counts: Vec<u64> = Vec::new();
    let mut k: usize = 0;
    while k < NUM_CATEGORIES
        invariant
            k <= NUM_CATEGORIES,
            counts@.len() == k,
            forall|j: int|
                0 <= j < k ==> #[trigger] counts@[j] == pages_with_category_upto(
                    records@,
                    j,
                    records@.len() as int,
                ),
        decreases NUM_CATEGORIES - k,
    {
        let c = crate::catalog::category_at(k);
        let mut n: u64 = 0;
        let mut i: usize = 0;
        while i < records.len()
            invariant
                i <= records@.len(),
                c == crate::catalog::spec_category_at(k as int),
                n == pages_with_category_upto(records@, k as int, i as int),
                n <= i,
            decreases records@.len() - i,
        {
            if records[i].has_category(c) {
                n = n + 1;
            }
            i = i + 1;
        }
        counts.push(n);
        k = k + 1;
    }
    counts
}

} // verus!
