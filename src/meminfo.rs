//! Memory statistics as the kernel's meminfo table reports them, in KB.
use vstd::prelude::*;
use crate::text::{
    chars_of, find_char, skip_space_chars, find_token_end, trim_end_index, parse_u64_at, find_from,
    skip_spaces, token_end, trim_end, parse_u64_spec,
};

verus! {

/// Makes `std::io::Error` known to the verifier as an opaque value carried in errors.
#[verifier::external_type_specification]
#[verifier::external_body]
pub struct ExIoError(std::io::Error);

/// Why memory statistics could not be had.
#[derive(Debug)]
pub enum MemoryError {
    ProcMemInfoRead(std::io::Error),
    ParseError(String),
    FieldNotFound(String),
}

/// Core memory statistics, in KB.
#[derive(Debug, Clone, Copy, PartialEq, Eq, Structural)]
pub struct MemoryStats {
    /// Total usable RAM.
    pub mem_total: u64,
    /// Free memory.
    pub mem_free: u64,
    /// Memory available for new work without swapping.
    pub mem_available: u64,
    /// Memory in buffers.
    pub buffers: u64,
    /// Page cache.
    pub cached: u64,
    /// Swap cache.
    pub swap_cached: u64,
    /// Recently used memory.
    pub active: u64,
    /// Less recently used memory, more eligible for reclaim.
    pub inactive: u64,
    /// Active file-backed pages.
    pub active_file: u64,
    /// Inactive file-backed pages: reclaimable page cache.
    pub inactive_file: u64,
    /// Active anonymous pages.
    pub active_anon: u64,
    /// Inactive anonymous pages.
    pub inactive_anon: u64,
    /// Memory waiting to be written back.
    pub dirty: u64,
    /// Memory being written back.
    pub writeback: u64,
    /// Memory mapped with mmap.
    pub mapped: u64,
    /// Shared memory.
    pub shmem: u64,
    /// Kernel slab memory.
    pub slab: u64,
    /// Reclaimable slab memory.
    pub s_reclaimable: u64,
    /// Unreclaimable slab memory.
    pub s_unreclaimable: u64,
}

/// Why a meminfo text could not be read as entries.
pub enum MeminfoFailure {
    /// A `key:` line without a value; holds the key.
    MissingValue(Seq<char>),
    /// A value that is not an unsigned number; holds it.
    BadNumber(Seq<char>),
}

/// End of the line that starts at `i`: the next line feed, or the end of the text.
pub open spec fn line_break(s: Seq<char>, i: int) -> int {
    find_from(s, i, s.len() as int, '\n')
}

/// End of the line's content, without the carriage return of a CR LF ending.
pub open spec fn line_content_end(s: Seq<char>, i: int) -> int {
    let k = line_break(s, i);
    if k < s.len() && k > i && s[k - 1] == '\r' {
        k - 1
    } else {
        k
    }
}

/// The entry of the line starting at `i`. A line without a colon holds none.
/// Otherwise the key is the text before the first colon, trimmed, and the
/// value is the first word after it, read as an unsigned number.
pub open spec fn line_entry(s: Seq<char>, i: int) -> Result<Option<(Seq<char>, u64)>, MeminfoFailure> {
    let e = line_content_end(s, i);
    let p = find_from(s, i, e, ':');
    if p >= e {
        Ok(None)
    } else {
        let ks = skip_spaces(s, i, p);
        let key = s.subrange(ks, trim_end(s, ks, p));
        let vs = skip_spaces(s, p + 1, e);
        let te = token_end(s, vs, e);
        if te <= vs {
            Err(MeminfoFailure::MissingValue(key))
        } else {
            match parse_u64_spec(s.subrange(vs, te)) {
                Some(v) => Ok(Some((key, v))),
                None => Err(MeminfoFailure::BadNumber(s.subrange(vs, te))),
            }
        }
    }
}

/// The entries of the lines from position `i` on, or the first failure among them.
pub open spec fn entries_from(s: Seq<char>, i: int) -> Result<Seq<(Seq<char>, u64)>, MeminfoFailure>
    decreases s.len() + 1 - i,
{
    if i >= s.len() || i < 0 {
        Ok(Seq::empty())
    } else {
        let next = line_break(s, i) + 1;
        if next <= i || next > s.len() + 1 {
            Ok(Seq::empty())
        } else {
            match line_entry(s, i) {
                Err(f) => Err(f),
                Ok(o) => match entries_from(s, next) {
                    Err(f) => Err(f),
                    Ok(rest) => Ok(
                        match o {
                            Some(en) => seq![en] + rest,
                            None => rest,
                        },
                    ),
                },
            }
        }
    }
}

/// Value of the last entry named `name`.
pub open spec fn field_value(es: Seq<(Seq<char>, u64)>, name: Seq<char>) -> Option<u64>
    decreases es.len(),
{
    if es.len() == 0 {
        None
    } else if es.last().0 == name {
        Some(es.last().1)
    } else {
        field_value(es.drop_last(), name)
    }
}

/// The statistics named by the entries, or the first field, in declaration
/// order, that no entry names.
pub open spec fn stats_from_entries(es: Seq<(Seq<char>, u64)>) -> Result<MemoryStats, Seq<char>> {
    if field_value(es, "MemTotal"@) is None {
        Err("MemTotal"@)
    } else if field_value(es, "MemFree"@) is None {
        Err("MemFree"@)
    } else if field_value(es, "MemAvailable"@) is None {
        Err("MemAvailable"@)
    } else if field_value(es, "Buffers"@) is None {
        Err("Buffers"@)
    } else if field_value(es, "Cached"@) is None {
        Err("Cached"@)
    } else if field_value(es, "SwapCached"@) is None {
        Err("SwapCached"@)
    } else if field_value(es, "Active"@) is None {
        Err("Active"@)
    } else if field_value(es, "Inactive"@) is None {
        Err("Inactive"@)
    } else if field_value(es, "Active(file)"@) is None {
        Err("Active(file)"@)
    } else if field_value(es, "Inactive(file)"@) is None {
        Err("Inactive(file)"@)
    } else if field_value(es, "Active(anon)"@) is None {
        Err("Active(anon)"@)
    } else if field_value(es, "Inactive(anon)"@) is None {
        Err("Inactive(anon)"@)
    } else if field_value(es, "Dirty"@) is None {
        Err("Dirty"@)
    } else if field_value(es, "Writeback"@) is None {
        Err("Writeback"@)
    } else if field_value(es, "Mapped"@) is None {
        Err("Mapped"@)
    } else if field_value(es, "Shmem"@) is None {
        Err("Shmem"@)
    } else if field_value(es, "Slab"@) is None {
        Err("Slab"@)
    } else if field_value(es, "SReclaimable"@) is None {
        Err("SReclaimable"@)
    } else if field_value(es, "SUnreclaim"@) is None {
        Err("SUnreclaim"@)
    } else {
        Ok(
            MemoryStats {
                mem_total: field_value(es, "MemTotal"@)->0,
                mem_free: field_value(es, "MemFree"@)->0,
                mem_available: field_value(es, "MemAvailable"@)->0,
                buffers: field_value(es, "Buffers"@)->0,
                cached: field_value(es, "Cached"@)->0,
                swap_cached: field_value(es, "SwapCached"@)->0,
                active: field_value(es, "Active"@)->0,
                inactive: field_value(es, "Inactive"@)->0,
                active_file: field_value(es, "Active(file)"@)->0,
                inactive_file: field_value(es, "Inactive(file)"@)->0,
                active_anon: field_value(es, "Active(anon)"@)->0,
                inactive_anon: field_value(es, "Inactive(anon)"@)->0,
                dirty: field_value(es, "Dirty"@)->0,
                writeback: field_value(es, "Writeback"@)->0,
                mapped: field_value(es, "Mapped"@)->0,
                shmem: field_value(es, "Shmem"@)->0,
                slab: field_value(es, "Slab"@)->0,
                s_reclaimable: field_value(es, "SReclaimable"@)->0,
                s_unreclaimable: field_value(es, "SUnreclaim"@)->0,
            },
        )
    }
}


fn range_equals(s: &Vec<char>, a: usize, b: usize, name: &Vec<char>) -> (eq: bool)
    requires
        a <= b <= s@.len(),
    ensures
        eq == (s@.subrange(a as int, b as int) == name@),
{
    if b - a != name.len() {
        return false;
    }
    let mut k: usize = 0;
    while k < name.len()
        invariant
            b - a == name@.len(),
            a <= b <= s@.len(),
            k <= name@.len(),
            forall|j: int| 0 <= j < k ==> s@[a + j] == name@[j],
        decreases name@.len() - k,
    {
        if s[a + k] != name[k] {
            assert(s@.subrange(a as int, b as int)[k as int] != name@[k as int]);
            return false;
        }
        k = k + 1;
    }
    assert(s@.subrange(a as int, b as int) =~= name@);
    true
}

pub open spec fn entries_view(s: Seq<char>, entries: Seq<(usize, usize, u64)>) -> Seq<(Seq<char>, u64)> {
    entries.map_values(|e: (usize, usize, u64)| (s.subrange(e.0 as int, e.1 as int), e.2))
}

/// Value of the last entry named `name`.
fn lookup(s: &Vec<char>, entries: &Vec<(usize, usize, u64)>, name: &str) -> (v: Option<u64>)
    requires
        forall|k: int| 0 <= k < entries@.len() ==> (#[trigger] entries@[k]).0 <= entries@[k].1 <= s@.len(),
    ensures
        v == field_value(entries_view(s@, entries@), name@),
{
    let name_chars = chars_of(name);
    let mut k = entries.len();
    assert(entries@.subrange(0, k as int) == entries@);
    while k > 0
        invariant
            k <= entries@.len(),
            name_chars@ == name@,
            forall|j: int| 0 <= j < entries@.len() ==> (#[trigger] entries@[j]).0 <= entries@[j].1 <= s@.len(),
            field_value(entries_view(s@, entries@), name@) == field_value(
                entries_view(s@, entries@.subrange(0, k as int)),
                name@,
            ),
        decreases k,
    {
        let e = entries[k - 1];
        let ghost es = entries_view(s@, entries@.subrange(0, k as int));
        proof {
            assert(entries_view(s@, entries@.subrange(0, k - 1)) == es.drop_last());
            assert(es.len() == k);
            assert(entries@.subrange(0, k as int)[k - 1] == e);
            assert(es[k - 1] == (s@.subrange(e.0 as int, e.1 as int), e.2));
        }
        if range_equals(s, e.0, e.1, &name_chars) {
            assert(es.last().0 == name@);
            return Some(e.2);
        }
        assert(field_value(es, name@) == field_value(es.drop_last(), name@));
        k = k - 1;
    }
    None
}

impl MemoryStats {
    /// Reads a meminfo text: one `Key: value kB` entry per line. A later
    /// entry of a key replaces an earlier one; lines without a colon are
    /// skipped.
    pub fn parse_meminfo(content: &str) -> (r: Result<MemoryStats, MemoryError>)
        ensures
            match entries_from(content@, 0) {
                Err(MeminfoFailure::MissingValue(key)) => r matches Err(MemoryError::ParseError(m))
                    && m@ == "No value found for "@ + key,
                Err(MeminfoFailure::BadNumber(t)) => r matches Err(MemoryError::ParseError(m)) && m@
                    == "Invalid number: "@ + t,
                Ok(es) => match stats_from_entries(es) {
                    Ok(stats) => r == Ok::<MemoryStats, MemoryError>(stats),
                    Err(name) => r matches Err(MemoryError::FieldNotFound(m)) && m@ == name,
                },
            },
    {
        let s = chars_of(content);
        let n = s.len();
        let mut entries: Vec<(usize, usize, u64)> = Vec::new();
        let mut i: usize = 0;
        let ghost mut ks_g: usize = 0;
        let ghost mut ke_g: usize = 0;
        let ghost mut v_g: u64 = 0;
        while i < n
            invariant
                n == s@.len(),
                s@ == content@,
                i <= n,
                forall|k: int| 0 <= k < entries@.len() ==> (#[trigger] entries@[k]).0 <= entries@[k].1 <= n,
                entries_from(s@, 0) == match entries_from(s@, i as int) {
                    Err(f) => Err(f),
                    Ok(rest) => Ok(entries_view(s@, entries@) + rest),
                },
            decreases n - i,
        {
            let ghost entries_before = entries@;
            let brk = find_char(&s, i, n, '\n');
            let e = if brk < n && brk > i && s[brk - 1] == '\r' { brk - 1 } else { brk };
            let p = find_char(&s, i, e, ':');
            proof {
                assert(brk == line_break(s@, i as int));
                assert(e == line_content_end(s@, i as int));
            }
            if p < e {
                let ks = skip_space_chars(&s, i, p);
                let ke = trim_end_index(&s, ks, p);
                let vs = skip_space_chars(&s, p + 1, e);
                let te = find_token_end(&s, vs, e);
                if te <= vs {
                    let msg = String::from_str("No value found for ").concat(content.substring_char(ks, ke));
                    return Err(MemoryError::ParseError(msg));
                }
                match parse_u64_at(&s, vs, te) {
                    Some(v) => {
                        let ghost before = entries@;
                        entries.push((ks, ke, v));
                        proof {
                            ks_g = ks;
                            ke_g = ke;
                            v_g = v;
                        }
                        proof {
                            assert(entries_view(s@, entries@) == entries_view(s@, before) + seq![(s@.subrange(ks as int, ke as int), v)]);
                        }
                    },
                    None => {
                        let msg = String::from_str("Invalid number: ").concat(content.substring_char(vs, te));
                        return Err(MemoryError::ParseError(msg));
                    },
                }
            }
            proof {
                let next = brk + 1;
                let tail = entries_from(s@, next as int);
                assert(entries_from(s@, n as int) == Ok::<Seq<(Seq<char>, u64)>, MeminfoFailure>(Seq::empty()));
                assert(entries_from(s@, n + 1) == Ok::<Seq<(Seq<char>, u64)>, MeminfoFailure>(Seq::empty()));
                if p < e {
                    let en = (s@.subrange(ks_g as int, ke_g as int), v_g);
                    assert(line_entry(s@, i as int) == Ok::<Option<(Seq<char>, u64)>, MeminfoFailure>(Some(en)));
                    assert(entries_view(s@, entries@) == entries_view(s@, entries_before) + seq![en]);
                    if let Ok(rest) = tail {
                        assert(entries_view(s@, entries@) + rest == entries_view(s@, entries_before) + (seq![en] + rest));
                    }
                } else {
                    assert(line_entry(s@, i as int) == Ok::<Option<(Seq<char>, u64)>, MeminfoFailure>(None));
                    assert(entries@ == entries_before);
                }
            }
            i = if brk < n { brk + 1 } else { n };
        }
        proof {
            assert(entries_view(s@, entries@) + Seq::<(Seq<char>, u64)>::empty() == entries_view(s@, entries@));
        }
        let mem_total = match lookup(&s, &entries, "MemTotal") {
            Some(v) => v,
            None => {
                return Err(MemoryError::FieldNotFound(String::from_str("MemTotal")));
            },
        };
        let mem_free = match lookup(&s, &entries, "MemFree") {
            Some(v) => v,
            None => {
                return Err(MemoryError::FieldNotFound(String::from_str("MemFree")));
            },
        };
        let mem_available = match lookup(&s, &entries, "MemAvailable") {
            Some(v) => v,
            None => {
                return Err(MemoryError::FieldNotFound(String::from_str("MemAvailable")));
            },
        };
        let buffers = match lookup(&s, &entries, "Buffers") {
            Some(v) => v,
            None => {
                return Err(MemoryError::FieldNotFound(String::from_str("Buffers")));
            },
        };
        let cached = match lookup(&s, &entries, "Cached") {
            Some(v) => v,
            None => {
                return Err(MemoryError::FieldNotFound(String::from_str("Cached")));
            },
        };
        let swap_cached = match lookup(&s, &entries, "SwapCached") {
            Some(v) => v,
            None => {
                return Err(MemoryError::FieldNotFound(String::from_str("SwapCached")));
            },
        };
        let active = match lookup(&s, &entries, "Active") {
            Some(v) => v,
            None => {
                return Err(MemoryError::FieldNotFound(String::from_str("Active")));
            },
        };
        let inactive = match lookup(&s, &entries, "Inactive") {
            Some(v) => v,
            None => {
                return Err(MemoryError::FieldNotFound(String::from_str("Inactive")));
            },
        };
        let active_file = match lookup(&s, &entries, "Active(file)") {
            Some(v) => v,
            None => {
                return Err(MemoryError::FieldNotFound(String::from_str("Active(file)")));
            },
        };
        let inactive_file = match lookup(&s, &entries, "Inactive(file)") {
            Some(v) => v,
            None => {
                return Err(MemoryError::FieldNotFound(String::from_str("Inactive(file)")));
            },
        };
        let active_anon = match lookup(&s, &entries, "Active(anon)") {
            Some(v) => v,
            None => {
                return Err(MemoryError::FieldNotFound(String::from_str("Active(anon)")));
            },
        };
        let inactive_anon = match lookup(&s, &entries, "Inactive(anon)") {
            Some(v) => v,
            None => {
                return Err(MemoryError::FieldNotFound(String::from_str("Inactive(anon)")));
            },
        };
        let dirty = match lookup(&s, &entries, "Dirty") {
            Some(v) => v,
            None => {
                return Err(MemoryError::FieldNotFound(String::from_str("Dirty")));
            },
        };
        let writeback = match lookup(&s, &entries, "Writeback") {
            Some(v) => v,
            None => {
                return Err(MemoryError::FieldNotFound(String::from_str("Writeback")));
            },
        };
        let mapped = match lookup(&s, &entries, "Mapped") {
            Some(v) => v,
            None => {
                return Err(MemoryError::FieldNotFound(String::from_str("Mapped")));
            },
        };
        let shmem = match lookup(&s, &entries, "Shmem") {
            Some(v) => v,
            None => {
                return Err(MemoryError::FieldNotFound(String::from_str("Shmem")));
            },
        };
        let slab = match lookup(&s, &entries, "Slab") {
            Some(v) => v,
            None => {
                return Err(MemoryError::FieldNotFound(String::from_str("Slab")));
            },
        };
        let s_reclaimable = match lookup(&s, &entries, "SReclaimable") {
            Some(v) => v,
            None => {
                return Err(MemoryError::FieldNotFound(String::from_str("SReclaimable")));
            },
        };
        let s_unreclaimable = match lookup(&s, &entries, "SUnreclaim") {
            Some(v) => v,
            None => {
                return Err(MemoryError::FieldNotFound(String::from_str("SUnreclaim")));
            },
        };
        Ok(MemoryStats {
            mem_total,
            mem_free,
            mem_available,
            buffers,
            cached,
            swap_cached,
            active,
            inactive,
            active_file,
            inactive_file,
            active_anon,
            inactive_anon,
            dirty,
            writeback,
            mapped,
            shmem,
            slab,
            s_reclaimable,
            s_unreclaimable,
        })
    }

    /// Memory in use: total less free, buffers and page cache, or zero when
    /// those exceed the total.
    pub fn used_memory(&self) -> (u: u64)
        requires
            self.mem_free + self.buffers + self.cached <= u64::MAX,
        ensures
            u == if self.mem_total >= self.mem_free + self.buffers + self.cached {
                self.mem_total - (self.mem_free + self.buffers + self.cached)
            } else {
                0
            },
    {
        self.mem_total.saturating_sub(self.mem_free + self.buffers + self.cached)
    }

    /// Page cache size: cached plus buffers.
    pub fn page_cache_size(&self) -> (c: u64)
        requires
            self.cached + self.buffers <= u64::MAX,
        ensures
            c == self.cached + self.buffers,
    {
        self.cached + self.buffers
    }

    pub open spec fn fits_in_bytes(&self) -> bool {
        &&& self.mem_total * 1024 <= u64::MAX
        &&& self.mem_free * 1024 <= u64::MAX
        &&& self.mem_available * 1024 <= u64::MAX
        &&& self.buffers * 1024 <= u64::MAX
        &&& self.cached * 1024 <= u64::MAX
        &&& self.swap_cached * 1024 <= u64::MAX
        &&& self.active * 1024 <= u64::MAX
        &&& self.inactive * 1024 <= u64::MAX
        &&& self.active_file * 1024 <= u64::MAX
        &&& self.inactive_file * 1024 <= u64::MAX
        &&& self.active_anon * 1024 <= u64::MAX
        &&& self.inactive_anon * 1024 <= u64::MAX
        &&& self.dirty * 1024 <= u64::MAX
        &&& self.writeback * 1024 <= u64::MAX
        &&& self.mapped * 1024 <= u64::MAX
        &&& self.shmem * 1024 <= u64::MAX
        &&& self.slab * 1024 <= u64::MAX
        &&& self.s_reclaimable * 1024 <= u64::MAX
        &&& self.s_unreclaimable * 1024 <= u64::MAX
    }

    /// The same statistics in bytes.
    pub fn to_bytes(&self) -> (b: MemoryStats)
        requires
            self.fits_in_bytes(),
        ensures
            b.mem_total == self.mem_total * 1024,
            b.mem_free == self.mem_free * 1024,
            b.mem_available == self.mem_available * 1024,
            b.buffers == self.buffers * 1024,
            b.cached == self.cached * 1024,
            b.swap_cached == self.swap_cached * 1024,
            b.active == self.active * 1024,
            b.inactive == self.inactive * 1024,
            b.active_file == self.active_file * 1024,
            b.inactive_file == self.inactive_file * 1024,
            b.active_anon == self.active_anon * 1024,
            b.inactive_anon == self.inactive_anon * 1024,
            b.dirty == self.dirty * 1024,
            b.writeback == self.writeback * 1024,
            b.mapped == self.mapped * 1024,
            b.shmem == self.shmem * 1024,
            b.slab == self.slab * 1024,
            b.s_reclaimable == self.s_reclaimable * 1024,
            b.s_unreclaimable == self.s_unreclaimable * 1024,
    {
        MemoryStats {
            mem_total: self.mem_total * 1024,
            mem_free: self.mem_free * 1024,
            mem_available: self.mem_available * 1024,
            buffers: self.buffers * 1024,
            cached: self.cached * 1024,
            swap_cached: self.swap_cached * 1024,
            active: self.active * 1024,
            inactive: self.inactive * 1024,
            active_file: self.active_file * 1024,
            inactive_file: self.inactive_file * 1024,
            active_anon: self.active_anon * 1024,
            inactive_anon: self.inactive_anon * 1024,
            dirty: self.dirty * 1024,
            writeback: self.writeback * 1024,
            mapped: self.mapped * 1024,
            shmem: self.shmem * 1024,
            slab: self.slab * 1024,
            s_reclaimable: self.s_reclaimable * 1024,
            s_unreclaimable: self.s_unreclaimable * 1024,
        }
    }
}

impl Default for MemoryStats {
    fn default() -> (s: MemoryStats)
        ensures
            s.mem_total == 0,
            s.mem_free == 0,
            s.mem_available == 0,
            s.buffers == 0,
            s.cached == 0,
            s.swap_cached == 0,
            s.active == 0,
            s.inactive == 0,
            s.active_file == 0,
            s.inactive_file == 0,
            s.active_anon == 0,
            s.inactive_anon == 0,
            s.dirty == 0,
            s.writeback == 0,
            s.mapped == 0,
            s.shmem == 0,
            s.slab == 0,
            s.s_reclaimable == 0,
            s.s_unreclaimable == 0,
    {
        MemoryStats {
            mem_total: 0,
            mem_free: 0,
            mem_available: 0,
            buffers: 0,
            cached: 0,
            swap_cached: 0,
            active: 0,
            inactive: 0,
            active_file: 0,
            inactive_file: 0,
            active_anon: 0,
            inactive_anon: 0,
            dirty: 0,
            writeback: 0,
            mapped: 0,
            shmem: 0,
            slab: 0,
            s_reclaimable: 0,
            s_unreclaimable: 0,
        }
    }
}


/// Size in KB of one page.
pub const PAGE_KB: u64 = 4;

/// `s[i..e]` starts with `prefix`.
pub open spec fn starts_with_at(s: Seq<char>, i: int, e: int, prefix: Seq<char>) -> bool {
    i + prefix.len() <= e && s.subrange(i, i + prefix.len()) == prefix
}

/// The page count that the total-memory line gives, from the line at `i` on:
/// the first line that starts with `MemTotal:` and has a second word decides,
/// that word read as KB and divided into 4 KB pages; `None` when the word is
/// not a number or no line decides.
pub open spec fn total_pages_from(s: Seq<char>, i: int) -> Option<u64>
    decreases s.len() + 1 - i,
{
    if i >= s.len() || i < 0 {
        None
    } else {
        let next = line_break(s, i) + 1;
        if next <= i || next > s.len() + 1 {
            None
        } else {
            let e = line_content_end(s, i);
            let w1 = token_end(s, i, e);
            let ws = skip_spaces(s, w1, e);
            let we = token_end(s, ws, e);
            if starts_with_at(s, i, e, "MemTotal:"@) && we > ws {
                match parse_u64_spec(s.subrange(ws, we)) {
                    Some(kb) => Some((kb / PAGE_KB) as u64),
                    None => None,
                }
            } else {
                total_pages_from(s, next)
            }
        }
    }
}

/// Estimated number of page frames from a meminfo text: total memory in
/// 4 KB pages, or `None` when the text does not give it.
pub fn estimated_total_pages(meminfo: &str) -> (pages: Option<u64>)
    ensures
        pages == total_pages_from(meminfo@, 0),
{
    let s = chars_of(meminfo);
    let prefix = chars_of("MemTotal:");
    let n = s.len();
    let mut i: usize = 0;
    while i < n
        invariant
            n == s@.len(),
            s@ == meminfo@,
            prefix@ == "MemTotal:"@,
            i <= n,
            total_pages_from(s@, 0) == total_pages_from(s@, i as int),
        decreases n - i,
    {
        let brk = find_char(&s, i, n, '\n');
        let e = if brk < n && brk > i && s[brk - 1] == '\r' { brk - 1 } else { brk };
        proof {
            assert(brk == line_break(s@, i as int));
            assert(e == line_content_end(s@, i as int));
        }
        let w1 = find_token_end(&s, i, e);
        let ws = skip_space_chars(&s, w1, e);
        let we = find_token_end(&s, ws, e);
        let starts = prefix.len() <= e - i && range_equals(&s, i, i + prefix.len(), &prefix);
        if starts && we > ws {
            return match parse_u64_at(&s, ws, we) {
                Some(kb) => Some(kb / PAGE_KB),
                None => None,
            };
        }
        proof {
            assert(total_pages_from(s@, n as int) == None::<u64>);
            assert(total_pages_from(s@, n + 1) == None::<u64>);
        }
        i = if brk < n { brk + 1 } else { n };
    }
    None
}

/// The statistics that a meminfo text gives, when it can be read.
pub open spec fn meminfo_stats(s: Seq<char>) -> Option<MemoryStats> {
    match entries_from(s, 0) {
        Ok(es) => match stats_from_entries(es) {
            Ok(stats) => Some(stats),
            Err(_) => None,
        },
        Err(_) => None,
    }
}

impl MemoryStats {
    /// The fields that changes are taken of fit in a signed 64-bit value.
    pub open spec fn within_signed(&self) -> bool {
        &&& self.mem_free <= i64::MAX
        &&& self.cached + self.buffers <= i64::MAX
        &&& self.inactive_file <= i64::MAX
        &&& self.active_file <= i64::MAX
        &&& self.dirty <= i64::MAX
        &&& self.writeback <= i64::MAX
    }
}

/// Memory use of one process, in KB.
#[derive(Debug, Clone, Copy, PartialEq, Eq, Structural)]
pub struct ProcessMemoryInfo {
    /// Resident set size.
    pub vm_rss: u64,
    /// Virtual memory size.
    pub vm_size: u64,
}

/// What the line at `i` gives for the field `prefix`: nothing when it does
/// not start with it or has no word after it, else that word read as a
/// number, or zero when it is not one.
pub open spec fn status_line_value(s: Seq<char>, i: int, prefix: Seq<char>) -> Option<u64> {
    let e = line_content_end(s, i);
    if starts_with_at(s, i, e, prefix) {
        let vs = skip_spaces(s, i + prefix.len(), e);
        let te = token_end(s, vs, e);
        if te > vs {
            Some(
                match parse_u64_spec(s.subrange(vs, te)) {
                    Some(v) => v,
                    None => 0,
                },
            )
        } else {
            None
        }
    } else {
        None
    }
}

/// The field `prefix` after the lines from `i` on, starting from `current`:
/// each line that gives a value replaces it.
pub open spec fn status_value_from(s: Seq<char>, i: int, prefix: Seq<char>, current: u64) -> u64
    decreases s.len() + 1 - i,
{
    if i >= s.len() || i < 0 {
        current
    } else {
        let next = line_break(s, i) + 1;
        if next <= i || next > s.len() + 1 {
            current
        } else {
            let v = match status_line_value(s, i, prefix) {
                Some(v) => v,
                None => current,
            };
            status_value_from(s, next, prefix, v)
        }
    }
}

fn status_line_value_at(s: &Vec<char>, i: usize, e: usize, prefix: &Vec<char>) -> (v: Option<u64>)
    requires
        i <= e <= s@.len(),
        e == line_content_end(s@, i as int),
    ensures
        v == status_line_value(s@, i as int, prefix@),
{
    if prefix.len() <= e - i && range_equals(s, i, i + prefix.len(), prefix) {
        let vs = skip_space_chars(s, i + prefix.len(), e);
        let te = find_token_end(s, vs, e);
        if te > vs {
            match parse_u64_at(s, vs, te) {
                Some(v) => Some(v),
                None => Some(0),
            }
        } else {
            None
        }
    } else {
        None
    }
}

impl ProcessMemoryInfo {
    /// Reads the `VmRSS:` and `VmSize:` fields of a process status text; a
    /// field that no line gives is zero.
    pub fn from_status(status: &str) -> (info: ProcessMemoryInfo)
        ensures
            info.vm_rss == status_value_from(status@, 0, "VmRSS:"@, 0),
            info.vm_size == status_value_from(status@, 0, "VmSize:"@, 0),
    {
        let s = chars_of(status);
        let rss_prefix = chars_of("VmRSS:");
        let size_prefix = chars_of("VmSize:");
        let n = s.len();
        let mut vm_rss: u64 = 0;
        let mut vm_size: u64 = 0;
        let mut i: usize = 0;
        while i < n
            invariant
                n == s@.len(),
                s@ == status@,
                rss_prefix@ == "VmRSS:"@,
                size_prefix@ == "VmSize:"@,
                i <= n,
                status_value_from(s@, 0, "VmRSS:"@, 0) == status_value_from(s@, i as int, "VmRSS:"@, vm_rss),
                status_value_from(s@, 0, "VmSize:"@, 0) == status_value_from(s@, i as int, "VmSize:"@, vm_size),
            decreases n - i,
        {
            let brk = find_char(&s, i, n, '\n');
            let e = if brk < n && brk > i && s[brk - 1] == '\r' { brk - 1 } else { brk };
            proof {
                assert(brk == line_break(s@, i as int));
                assert(e == line_content_end(s@, i as int));
            }
            if let Some(v) = status_line_value_at(&s, i, e, &rss_prefix) {
                vm_rss = v;
            }
            if let Some(v) = status_line_value_at(&s, i, e, &size_prefix) {
                vm_size = v;
            }
            proof {
                assert(status_value_from(s@, n as int, "VmRSS:"@, vm_rss) == vm_rss);
                assert(status_value_from(s@, n + 1, "VmRSS:"@, vm_rss) == vm_rss);
                assert(status_value_from(s@, n as int, "VmSize:"@, vm_size) == vm_size);
                assert(status_value_from(s@, n + 1, "VmSize:"@, vm_size) == vm_size);
            }
            i = if brk < n { brk + 1 } else { n };
        }
        ProcessMemoryInfo { vm_rss, vm_size }
    }
}

} // verus!
