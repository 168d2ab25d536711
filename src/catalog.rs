//! The flag catalog: which bit of a page-flag record means what.
use vstd::prelude::*;

verus! {

/// Grouping of related page flags, used for aggregate reporting.
#[derive(Debug, Clone, Copy, PartialEq, Eq, Hash, Structural)]
pub enum FlagCategory {
    State,
    Memory,
    Usage,
    Allocation,
    IO,
    Structure,
    Special,
    Error,
}

/// One known flag: its mask, name, description and category.
#[derive(Debug, Clone, Copy)]
pub struct FlagDefinition {
    pub bit_mask: u64,
    pub name: &'static str,
    pub description: &'static str,
    pub category: FlagCategory,
}

/// Number of entries in the catalog.
pub const NUM_FLAGS: usize = 28;

/// Number of categories.
pub const NUM_CATEGORIES: usize = 8;

/// Bit position of catalog entry `i`: bits 0 through 26, then the reserved bit 32.
pub open spec fn flag_bit(i: int) -> int {
    if i < 27 {
        i
    } else {
        32
    }
}

pub open spec fn spec_flag_mask(i: int) -> u64 {
    1u64 << (flag_bit(i) as u64)
}

pub open spec fn spec_flag_category(i: int) -> FlagCategory {
    if i == 0 || i == 3 || i == 4 || i == 20 || i == 23 || i == 27 {
        FlagCategory::State
    } else if i == 1 || i == 19 {
        FlagCategory::Error
    } else if i == 2 || i == 11 || i == 12 || i == 25 {
        FlagCategory::Usage
    } else if i == 5 || i == 6 || i == 9 || i == 13 || i == 14 || i == 18 {
        FlagCategory::Memory
    } else if i == 7 || i == 10 {
        FlagCategory::Allocation
    } else if i == 8 {
        FlagCategory::IO
    } else if i == 15 || i == 16 || i == 17 || i == 22 {
        FlagCategory::Structure
    } else {
        FlagCategory::Special
    }
}

/// Mask of the bit of catalog entry `i`.
pub fn flag_mask(i: usize) -> (m: u64)
    requires
        i < NUM_FLAGS,
    ensures
        m == spec_flag_mask(i as int),
{
    let bit: u64 = if i < 27 { i as u64 } else { 32 };
    1u64 << bit
}

/// Category of catalog entry `i`.
pub fn flag_category(i: usize) -> (c: FlagCategory)
    requires
        i < NUM_FLAGS,
    ensures
        c == spec_flag_category(i as int),
{
    match i {
        0 | 3 | 4 | 20 | 23 | 27 => FlagCategory::State,
        1 | 19 => FlagCategory::Error,
        2 | 11 | 12 | 25 => FlagCategory::Usage,
        5 | 6 | 9 | 13 | 14 | 18 => FlagCategory::Memory,
        7 | 10 => FlagCategory::Allocation,
        8 => FlagCategory::IO,
        15 | 16 | 17 | 22 => FlagCategory::Structure,
        _ => FlagCategory::Special,
    }
}

pub open spec fn spec_flag_name(i: int) -> &'static str {
    if i == 0 {
        "LOCKED"
    } else if i == 1 {
        "ERROR"
    } else if i == 2 {
        "REFERENCED"
    } else if i == 3 {
        "UPTODATE"
    } else if i == 4 {
        "DIRTY"
    } else if i == 5 {
        "LRU"
    } else if i == 6 {
        "ACTIVE"
    } else if i == 7 {
        "SLAB"
    } else if i == 8 {
        "WRITEBACK"
    } else if i == 9 {
        "RECLAIM"
    } else if i == 10 {
        "BUDDY"
    } else if i == 11 {
        "MMAP"
    } else if i == 12 {
        "ANON"
    } else if i == 13 {
        "SWAPCACHE"
    } else if i == 14 {
        "SWAPBACKED"
    } else if i == 15 {
        "COMPOUND_HEAD"
    } else if i == 16 {
        "COMPOUND_TAIL"
    } else if i == 17 {
        "HUGE"
    } else if i == 18 {
        "UNEVICTABLE"
    } else if i == 19 {
        "HWPOISON"
    } else if i == 20 {
        "NOPAGE"
    } else if i == 21 {
        "KSM"
    } else if i == 22 {
        "THP"
    } else if i == 23 {
        "OFFLINE"
    } else if i == 24 {
        "ZERO_PAGE"
    } else if i == 25 {
        "IDLE"
    } else if i == 26 {
        "PGTABLE"
    } else {
        "RESERVED"
    }
}

/// Name of catalog entry `i`.
pub fn flag_name(i: usize) -> (s: &'static str)
    requires
        i < NUM_FLAGS,
    ensures
        s == spec_flag_name(i as int),
{
    match i {
        0 => "LOCKED",
        1 => "ERROR",
        2 => "REFERENCED",
        3 => "UPTODATE",
        4 => "DIRTY",
        5 => "LRU",
        6 => "ACTIVE",
        7 => "SLAB",
        8 => "WRITEBACK",
        9 => "RECLAIM",
        10 => "BUDDY",
        11 => "MMAP",
        12 => "ANON",
        13 => "SWAPCACHE",
        14 => "SWAPBACKED",
        15 => "COMPOUND_HEAD",
        16 => "COMPOUND_TAIL",
        17 => "HUGE",
        18 => "UNEVICTABLE",
        19 => "HWPOISON",
        20 => "NOPAGE",
        21 => "KSM",
        22 => "THP",
        23 => "OFFLINE",
        24 => "ZERO_PAGE",
        25 => "IDLE",
        26 => "PGTABLE",
        _ => "RESERVED",
    }
}

pub open spec fn spec_flag_description(i: int) -> &'static str {
    if i == 0 {
        "Page is locked"
    } else if i == 1 {
        "Page has error"
    } else if i == 2 {
        "Page has been referenced"
    } else if i == 3 {
        "Page is up to date"
    } else if i == 4 {
        "Page is dirty"
    } else if i == 5 {
        "Page is on LRU list"
    } else if i == 6 {
        "Page is on active list"
    } else if i == 7 {
        "Page is slab allocated"
    } else if i == 8 {
        "Page is under writeback"
    } else if i == 9 {
        "Page is being reclaimed"
    } else if i == 10 {
        "Page is free buddy page"
    } else if i == 11 {
        "Page is memory mapped"
    } else if i == 12 {
        "Page is anonymous"
    } else if i == 13 {
        "Page is in swap cache"
    } else if i == 14 {
        "Page is swap backed"
    } else if i == 15 {
        "Compound page head"
    } else if i == 16 {
        "Compound page tail"
    } else if i == 17 {
        "Huge page"
    } else if i == 18 {
        "Page is unevictable"
    } else if i == 19 {
        "Hardware poisoned page"
    } else if i == 20 {
        "No page frame exists"
    } else if i == 21 {
        "KSM page"
    } else if i == 22 {
        "Transparent huge page"
    } else if i == 23 {
        "Page is offline"
    } else if i == 24 {
        "Zero page"
    } else if i == 25 {
        "Page is idle"
    } else if i == 26 {
        "Page table page"
    } else {
        "Reserved page (common in early memory)"
    }
}

/// Description of catalog entry `i`.
pub fn flag_description(i: usize) -> (s: &'static str)
    requires
        i < NUM_FLAGS,
    ensures
        s == spec_flag_description(i as int),
{
    match i {
        0 => "Page is locked",
        1 => "Page has error",
        2 => "Page has been referenced",
        3 => "Page is up to date",
        4 => "Page is dirty",
        5 => "Page is on LRU list",
        6 => "Page is on active list",
        7 => "Page is slab allocated",
        8 => "Page is under writeback",
        9 => "Page is being reclaimed",
        10 => "Page is free buddy page",
        11 => "Page is memory mapped",
        12 => "Page is anonymous",
        13 => "Page is in swap cache",
        14 => "Page is swap backed",
        15 => "Compound page head",
        16 => "Compound page tail",
        17 => "Huge page",
        18 => "Page is unevictable",
        19 => "Hardware poisoned page",
        20 => "No page frame exists",
        21 => "KSM page",
        22 => "Transparent huge page",
        23 => "Page is offline",
        24 => "Zero page",
        25 => "Page is idle",
        26 => "Page table page",
        _ => "Reserved page (common in early memory)",
    }
}

pub open spec fn spec_flag_definition(i: int) -> FlagDefinition {
    FlagDefinition {
        bit_mask: spec_flag_mask(i),
        name: spec_flag_name(i),
        description: spec_flag_description(i),
        category: spec_flag_category(i),
    }
}

/// Catalog entry `i`.
pub fn flag_definition(i: usize) -> (d: FlagDefinition)
    requires
        i < NUM_FLAGS,
    ensures
        d == spec_flag_definition(i as int),
{
    FlagDefinition {
        bit_mask: flag_mask(i),
        name: flag_name(i),
        description: flag_description(i),
        category: flag_category(i),
    }
}

/// The whole catalog, in bit order.
pub fn page_flags() -> (v: Vec<FlagDefinition>)
    ensures
        v@.len() == NUM_FLAGS,
        forall|i: int| 0 <= i < NUM_FLAGS ==> #[trigger] v@[i] == spec_flag_definition(i),
{
    let mut v: Vec<FlagDefinition> = Vec::new();
    let mut i: usize = 0;
    while i < NUM_FLAGS
        invariant
            i <= NUM_FLAGS,
            v@.len() == i,
            forall|j: int| 0 <= j < i ==> #[trigger] v@[j] == spec_flag_definition(j),
        decreases NUM_FLAGS - i,
    {
        v.push(flag_definition(i));
        i = i + 1;
    }
    v
}

/// Position of a category in the per-category counter arrays.
pub open spec fn spec_category_index(c: FlagCategory) -> int {
    match c {
        FlagCategory::State => 0,
        FlagCategory::Memory => 1,
        FlagCategory::Usage => 2,
        FlagCategory::Allocation => 3,
        FlagCategory::IO => 4,
        FlagCategory::Structure => 5,
        FlagCategory::Special => 6,
        FlagCategory::Error => 7,
    }
}

/// Category at a counter position; inverse of `spec_category_index`.
pub open spec fn spec_category_at(k: int) -> FlagCategory {
    if k == 0 {
        FlagCategory::State
    } else if k == 1 {
        FlagCategory::Memory
    } else if k == 2 {
        FlagCategory::Usage
    } else if k == 3 {
        FlagCategory::Allocation
    } else if k == 4 {
        FlagCategory::IO
    } else if k == 5 {
        FlagCategory::Structure
    } else if k == 6 {
        FlagCategory::Special
    } else {
        FlagCategory::Error
    }
}

/// Position of a category in the per-category counter arrays.
pub fn category_index(c: FlagCategory) -> (k: usize)
    ensures
        k == spec_category_index(c),
        k < NUM_CATEGORIES,
        spec_category_at(k as int) == c,
{
    match c {
        FlagCategory::State => 0,
        FlagCategory::Memory => 1,
        FlagCategory::Usage => 2,
        FlagCategory::Allocation => 3,
        FlagCategory::IO => 4,
        FlagCategory::Structure => 5,
        FlagCategory::Special => 6,
        FlagCategory::Error => 7,
    }
}

/// Category at a counter position.
pub fn category_at(k: usize) -> (c: FlagCategory)
    requires
        k < NUM_CATEGORIES,
    ensures
        c == spec_category_at(k as int),
        spec_category_index(c) == k,
{
    match k {
        0 => FlagCategory::State,
        1 => FlagCategory::Memory,
        2 => FlagCategory::Usage,
        3 => FlagCategory::Allocation,
        4 => FlagCategory::IO,
        5 => FlagCategory::Structure,
        6 => FlagCategory::Special,
        _ => FlagCategory::Error,
    }
}

/// Categories in the order of their names: Allocation, Error, IO, Memory,
/// Special, State, Structure, Usage.
pub open spec fn spec_category_by_name_rank(r: int) -> FlagCategory {
    if r == 0 {
        FlagCategory::Allocation
    } else if r == 1 {
        FlagCategory::Error
    } else if r == 2 {
        FlagCategory::IO
    } else if r == 3 {
        FlagCategory::Memory
    } else if r == 4 {
        FlagCategory::Special
    } else if r == 5 {
        FlagCategory::State
    } else if r == 6 {
        FlagCategory::Structure
    } else {
        FlagCategory::Usage
    }
}

pub fn category_by_name_rank(r: usize) -> (c: FlagCategory)
    requires
        r < NUM_CATEGORIES,
    ensures
        c == spec_category_by_name_rank(r as int),
{
    match r {
        0 => FlagCategory::Allocation,
        1 => FlagCategory::Error,
        2 => FlagCategory::IO,
        3 => FlagCategory::Memory,
        4 => FlagCategory::Special,
        5 => FlagCategory::State,
        6 => FlagCategory::Structure,
        _ => FlagCategory::Usage,
    }
}

pub open spec fn spec_category_symbol(c: FlagCategory) -> char {
    match c {
        FlagCategory::State => 'S',
        FlagCategory::Memory => 'M',
        FlagCategory::Usage => 'U',
        FlagCategory::Allocation => 'A',
        FlagCategory::IO => 'I',
        FlagCategory::Structure => 'T',
        FlagCategory::Special => 'P',
        FlagCategory::Error => 'E',
    }
}

/// One-letter symbol of a category in grids and legends.
pub fn category_symbol(c: FlagCategory) -> (s: char)
    ensures
        s == spec_category_symbol(c),
{
    match c {
        FlagCategory::State => 'S',
        FlagCategory::Memory => 'M',
        FlagCategory::Usage => 'U',
        FlagCategory::Allocation => 'A',
        FlagCategory::IO => 'I',
        FlagCategory::Structure => 'T',
        FlagCategory::Special => 'P',
        FlagCategory::Error => 'E',
    }
}

} // verus!
