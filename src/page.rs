//! A page record and the queries that classify it against the catalog.
use vstd::prelude::*;
use crate::catalog::{
    FlagCategory, NUM_FLAGS, NUM_CATEGORIES, flag_bit, spec_flag_mask, spec_flag_name,
    spec_flag_description, spec_flag_category, spec_category_by_name_rank, flag_mask, flag_name,
    flag_description, flag_category, category_by_name_rank,
};

verus! {

/// Mask of every bit that some catalog entry describes: bits 0..=26 and bit 32.
pub const KNOWN_FLAGS_MASK: u64 = 0x1_07FF_FFFF;

/// The flag record of one page frame.
#[derive(Debug, Clone, Copy, PartialEq, Eq, Structural)]
pub struct PageInfo {
    pub pfn: u64,
    pub flags: u64,
}

/// Catalog entry `i` matches `flags`.
pub open spec fn has_flag(flags: u64, i: int) -> bool {
    flags & spec_flag_mask(i) != 0
}

/// Catalog indices below `n` that match `flags`, ascending.
pub open spec fn matched_upto(flags: u64, n: int) -> Seq<int>
    decreases n,
{
    if n <= 0 {
        Seq::empty()
    } else if has_flag(flags, n - 1) {
        matched_upto(flags, n - 1).push(n - 1)
    } else {
        matched_upto(flags, n - 1)
    }
}

/// Catalog indices that match `flags`, ascending.
pub open spec fn matched_flags(flags: u64) -> Seq<int> {
    matched_upto(flags, NUM_FLAGS as int)
}

/// Some catalog entry has bit `b`.
pub open spec fn catalog_covers(b: int) -> bool {
    (0 <= b < 27) || b == 32
}

pub open spec fn bit_is_set(flags: u64, b: int) -> bool {
    flags & (1u64 << (b as u64)) != 0
}

pub open spec fn is_unknown_bit(flags: u64, b: int) -> bool {
    bit_is_set(flags, b) && !catalog_covers(b)
}

/// Set bits below `n` that no catalog entry describes, ascending.
pub open spec fn unknown_upto(flags: u64, n: int) -> Seq<u8>
    decreases n,
{
    if n <= 0 {
        Seq::empty()
    } else if is_unknown_bit(flags, n - 1) {
        unknown_upto(flags, n - 1).push((n - 1) as u8)
    } else {
        unknown_upto(flags, n - 1)
    }
}

/// Set bits of `flags` that no catalog entry describes, ascending.
pub open spec fn unknown_bits(flags: u64) -> Seq<u8> {
    unknown_upto(flags, 64)
}

/// Some matched catalog entry has bit `b`.
pub open spec fn covered_by_match(flags: u64, b: int) -> bool {
    exists|i: int| #[trigger] matched_flags(flags).contains(i) && flag_bit(i) == b
}

/// Some catalog entry of category `c` matches `flags`.
pub open spec fn category_present(flags: u64, c: FlagCategory) -> bool {
    exists|i: int| 0 <= i < NUM_FLAGS && #[trigger] has_flag(flags, i) && spec_flag_category(i) == c
}

/// Categories ranked below `n` by name that some matched entry belongs to.
pub open spec fn categories_upto(flags: u64, n: int) -> Seq<FlagCategory>
    decreases n,
{
    if n <= 0 {
        Seq::empty()
    } else if category_present(flags, spec_category_by_name_rank(n - 1)) {
        categories_upto(flags, n - 1).push(spec_category_by_name_rank(n - 1))
    } else {
        categories_upto(flags, n - 1)
    }
}

/// The distinct categories of the entries matching `flags`, sorted by name.
pub open spec fn record_categories(flags: u64) -> Seq<FlagCategory> {
    categories_upto(flags, NUM_CATEGORIES as int)
}

proof fn lemma_matched_upto(flags: u64, n: int)
    requires
        0 <= n <= NUM_FLAGS,
    ensures
        forall|k: int|
            0 <= k < matched_upto(flags, n).len() ==> 0 <= #[trigger] matched_upto(flags, n)[k]
                < n && has_flag(flags, matched_upto(flags, n)[k]),
        forall|i: int| 0 <= i < n && has_flag(flags, i) ==> #[trigger] matched_upto(flags, n).contains(i),
        forall|a: int, b: int|
            0 <= a < b < matched_upto(flags, n).len() ==> #[trigger] matched_upto(flags, n)[a]
                < #[trigger] matched_upto(flags, n)[b],
    decreases n,
{
    if n > 0 {
        lemma_matched_upto(flags, n - 1);
        let p = matched_upto(flags, n - 1);
        if has_flag(flags, n - 1) {
            assert(matched_upto(flags, n) == p.push(n - 1));
            assert forall|i: int| 0 <= i < n && has_flag(flags, i) implies #[trigger] matched_upto(flags, n).contains(i) by {
                if i == n - 1 {
                    assert(p.push(n - 1)[p.len() as int] == i);
                } else {
                    assert(p.contains(i));
                    let k = choose|k: int| 0 <= k < p.len() && p[k] == i;
                    assert(p.push(n - 1)[k] == i);
                }
            }
        }
    }
}

proof fn lemma_unknown_upto(flags: u64, n: int)
    requires
        0 <= n <= 64,
    ensures
        forall|k: int|
            0 <= k < unknown_upto(flags, n).len() ==> (#[trigger] unknown_upto(flags, n)[k] as int)
                < n && is_unknown_bit(flags, unknown_upto(flags, n)[k] as int),
        forall|b: int| 0 <= b < n && is_unknown_bit(flags, b) ==> #[trigger] unknown_upto(flags, n).contains(b as u8),
    decreases n,
{
    if n > 0 {
        lemma_unknown_upto(flags, n - 1);
        let p = unknown_upto(flags, n - 1);
        if is_unknown_bit(flags, n - 1) {
            assert forall|b: int| 0 <= b < n && is_unknown_bit(flags, b) implies #[trigger] unknown_upto(flags, n).contains(b as u8) by {
                if b == n - 1 {
                    assert(p.push((n - 1) as u8)[p.len() as int] == b as u8);
                } else {
                    assert(p.contains(b as u8));
                    let k = choose|k: int| 0 <= k < p.len() && p[k] == b as u8;
                    assert(p.push((n - 1) as u8)[k] == b as u8);
                }
            }
        }
    }
}

proof fn lemma_bit_masks(flags: u64, b: u64)
    requires
        b < 64,
    ensures
        (flags & (1u64 << b) != 0) <==> (flags & (1u64 << b) == (1u64 << b)),
        ((flags & !KNOWN_FLAGS_MASK) & (1u64 << b) != 0) <==> ((flags & (1u64 << b) != 0) && !(b < 27 || b == 32)),
        (0u64 & (1u64 << b)) == 0,
{
    assert((flags & (1u64 << b) != 0) <==> (flags & (1u64 << b) == (1u64 << b))) by (bit_vector)
        requires
            b < 64,
    ;
    assert(((flags & !0x1_07FF_FFFFu64) & (1u64 << b) != 0) <==> ((flags & (1u64 << b) != 0) && !(b < 27 || b == 32))) by (bit_vector)
        requires
            b < 64,
    ;
    assert((0u64 & (1u64 << b)) == 0) by (bit_vector);
}

/// A record with no bit set matches no catalog entry and has no unknown bit.
pub proof fn lemma_empty_record_is_unclassified()
    ensures
        matched_flags(0) == Seq::<int>::empty(),
        unknown_bits(0) == Seq::<u8>::empty(),
{
    assert forall|b: int| 0 <= b < 64 implies !bit_is_set(0, b) by {
        lemma_bit_masks(0, b as u64);
    }
    lemma_matched_upto(0, NUM_FLAGS as int);
    lemma_unknown_upto(0, 64);
    if matched_flags(0).len() > 0 {
        let i = matched_flags(0)[0];
        assert(!bit_is_set(0, flag_bit(i)));
    }
    if unknown_bits(0).len() > 0 {
        let b = unknown_bits(0)[0];
        assert(!bit_is_set(0, b as int));
    }
}

/// The matched entries are exactly those whose mask is a submask of the
/// record, and every set bit is either described by a matched entry or listed
/// as unknown, never both.
pub proof fn lemma_classification_partition(flags: u64)
    ensures
        forall|i: int|
            0 <= i < NUM_FLAGS ==> (#[trigger] matched_flags(flags).contains(i) <==> (flags
                & spec_flag_mask(i)) == spec_flag_mask(i)),
        forall|b: int|
            0 <= b < 64 ==> (#[trigger] bit_is_set(flags, b) <==> (unknown_bits(flags).contains(
                b as u8,
            ) || covered_by_match(flags, b))),
        forall|b: int|
            0 <= b < 64 ==> !(#[trigger] unknown_bits(flags).contains(b as u8) && covered_by_match(
                flags,
                b,
            )),
        forall|k: int| 0 <= k < unknown_bits(flags).len() ==> (#[trigger] unknown_bits(flags)[k]) < 64,
{
    lemma_matched_upto(flags, NUM_FLAGS as int);
    lemma_unknown_upto(flags, 64);
    let m = matched_flags(flags);
    let u = unknown_bits(flags);
    assert forall|i: int| 0 <= i < NUM_FLAGS implies (#[trigger] m.contains(i) <==> (flags
        & spec_flag_mask(i)) == spec_flag_mask(i)) by {
        lemma_bit_masks(flags, flag_bit(i) as u64);
        if m.contains(i) {
            let k = choose|k: int| 0 <= k < m.len() && m[k] == i;
            assert(has_flag(flags, m[k]));
        }
    }
    assert forall|b: int| 0 <= b < 64 implies (#[trigger] bit_is_set(flags, b) <==> (u.contains(
        b as u8,
    ) || covered_by_match(flags, b))) by {
        if bit_is_set(flags, b) {
            if catalog_covers(b) {
                let i = if b < 27 { b } else { 27 };
                assert(flag_bit(i) == b);
                assert(has_flag(flags, i));
                assert(m.contains(i));
            }
        }
        if u.contains(b as u8) {
            let k = choose|k: int| 0 <= k < u.len() && u[k] == b as u8;
            assert(is_unknown_bit(flags, u[k] as int));
        }
        if covered_by_match(flags, b) {
            let i = choose|i: int| #[trigger] m.contains(i) && flag_bit(i) == b;
            let k = choose|k: int| 0 <= k < m.len() && m[k] == i;
            assert(has_flag(flags, m[k]));
        }
    }
    assert forall|b: int| 0 <= b < 64 implies !(#[trigger] u.contains(b as u8) && covered_by_match(flags, b)) by {
        if u.contains(b as u8) {
            let k = choose|k: int| 0 <= k < u.len() && u[k] == b as u8;
            assert(is_unknown_bit(flags, u[k] as int));
            if covered_by_match(flags, b) {
                let i = choose|i: int| #[trigger] m.contains(i) && flag_bit(i) == b;
                let j = choose|j: int| 0 <= j < m.len() && m[j] == i;
                assert(0 <= m[j] < NUM_FLAGS);
            }
        }
    }
}

impl PageInfo {
    pub fn new(pfn: u64, flags: u64) -> (p: PageInfo)
        ensures
            p.pfn == pfn,
            p.flags == flags,
    {
        PageInfo { pfn, flags }
    }

    /// Names of the catalog entries that this record matches, in catalog order.
    pub fn get_flag_names(&self) -> (names: Vec<&'static str>)
        ensures
            names@ == matched_flags(self.flags).map_values(|i: int| spec_flag_name(i)),
    {
        let mut names: Vec<&'static str> = Vec::new();
        let mut i: usize = 0;
        while i < NUM_FLAGS
            invariant
                i <= NUM_FLAGS,
                names@ == matched_upto(self.flags, i as int).map_values(|j: int| spec_flag_name(j)),
            decreases NUM_FLAGS - i,
        {
            if self.flags & flag_mask(i) != 0 {
                names.push(flag_name(i));
            }
            i = i + 1;
        }
        names
    }

    /// Name and description of each matched catalog entry, in catalog order.
    pub fn get_flag_descriptions(&self) -> (rows: Vec<(&'static str, &'static str)>)
        ensures
            rows@ == matched_flags(self.flags).map_values(
                |i: int| (spec_flag_name(i), spec_flag_description(i)),
            ),
    {
        let mut rows: Vec<(&'static str, &'static str)> = Vec::new();
        let mut i: usize = 0;
        while i < NUM_FLAGS
            invariant
                i <= NUM_FLAGS,
                rows@ == matched_upto(self.flags, i as int).map_values(
                    |j: int| (spec_flag_name(j), spec_flag_description(j)),
                ),
            decreases NUM_FLAGS - i,
        {
            if self.flags & flag_mask(i) != 0 {
                rows.push((flag_name(i), flag_description(i)));
            }
            i = i + 1;
        }
        rows
    }

    /// Category of the lowest matched catalog entry, if any.
    pub fn get_primary_category(&self) -> (c: Option<FlagCategory>)
        ensures
            matched_flags(self.flags).len() == 0 ==> c is None,
            matched_flags(self.flags).len() > 0 ==> c == Some(
                spec_flag_category(matched_flags(self.flags)[0]),
            ),
    {
        let mut i: usize = 0;
        while i < NUM_FLAGS
            invariant
                i <= NUM_FLAGS,
                matched_upto(self.flags, i as int).len() == 0,
            decreases NUM_FLAGS - i,
        {
            if self.flags & flag_mask(i) != 0 {
                proof {
                    lemma_matched_prefix(self.flags, i as int + 1, NUM_FLAGS as int);
                }
                return Some(flag_category(i));
            }
            i = i + 1;
        }
        None
    }

    /// Some matched catalog entry belongs to category `c`.
    pub fn has_category(&self, c: FlagCategory) -> (b: bool)
        ensures
            b == category_present(self.flags, c),
    {
        let mut i: usize = 0;
        while i < NUM_FLAGS
            invariant
                i <= NUM_FLAGS,
                forall|j: int| 0 <= j < i ==> !(#[trigger] has_flag(self.flags, j) && spec_flag_category(j) == c),
            decreases NUM_FLAGS - i,
        {
            if self.flags & flag_mask(i) != 0 && flag_category(i) == c {
                assert(has_flag(self.flags, i as int));
                return true;
            }
            i = i + 1;
        }
        false
    }

    /// The distinct categories of the matched entries, sorted by category name.
    pub fn get_flag_categories(&self) -> (cats: Vec<FlagCategory>)
        ensures
            cats@ == record_categories(self.flags),
    {
        let mut cats: Vec<FlagCategory> = Vec::new();
        let mut r: usize = 0;
        while r < NUM_CATEGORIES
            invariant
                r <= NUM_CATEGORIES,
                cats@ == categories_upto(self.flags, r as int),
            decreases NUM_CATEGORIES - r,
        {
            let c = category_by_name_rank(r);
            if self.has_category(c) {
                cats.push(c);
            }
            r = r + 1;
        }
        cats
    }

    /// Set bits that no catalog entry describes, ascending.
    pub fn get_unknown_flags(&self) -> (bits: Vec<u8>)
        ensures
            bits@ == unknown_bits(self.flags),
    {
        let unknown = self.flags & !KNOWN_FLAGS_MASK;
        let mut bits: Vec<u8> = Vec::new();
        let mut bit: u8 = 0;
        while bit < 64
            invariant
                bit <= 64,
                unknown == self.flags & !KNOWN_FLAGS_MASK,
                bits@ == unknown_upto(self.flags, bit as int),
            decreases 64 - bit,
        {
            proof {
                lemma_bit_masks(self.flags, bit as u64);
            }
            if unknown & (1u64 << bit) != 0 {
                bits.push(bit);
            }
            bit = bit + 1;
        }
        bits
    }
}

/// When the lowest match is below `n`, it is the lowest match of every longer prefix.
proof fn lemma_matched_prefix(flags: u64, n: int, m: int)
    requires
        0 < n <= m,
        matched_upto(flags, n - 1).len() == 0,
        has_flag(flags, n - 1),
    ensures
        matched_upto(flags, m).len() > 0,
        matched_upto(flags, m)[0] == n - 1,
    decreases m - n,
{
    if m > n {
        lemma_matched_prefix(flags, n, m - 1);
    }
}

} // verus!
