//! Human-readable renderings of counts and memory sizes.
use vstd::prelude::*;
use crate::text::{decimal_chars, digit_char, digit_str, push_decimal};

verus! {

pub const KB_PER_MB: u64 = 1024;

pub const KB_PER_GB: u64 = 1024 * 1024;

pub const KB_PER_TB: u64 = 1024 * 1024 * 1024;

/// The three digits of `m`, zero-padded.
pub open spec fn three_digits(m: nat) -> Seq<char> {
    seq![digit_char((m / 100) as int), digit_char((m / 10 % 10) as int), digit_char((m % 10) as int)]
}

/// `n` in decimal with a comma between groups of three digits.
pub open spec fn grouped_decimal(n: nat) -> Seq<char>
    decreases n,
{
    if n < 1000 {
        decimal_chars(n)
    } else {
        grouped_decimal(n / 1000) + seq![','] + three_digits(n % 1000)
    }
}

/// `n` with a leading sign, `+` for zero and above, and grouped digits.
pub open spec fn signed_grouped(n: int) -> Seq<char> {
    if n >= 0 {
        seq!['+'] + grouped_decimal(n as nat)
    } else {
        seq!['-'] + grouped_decimal((-n) as nat)
    }
}

/// `kb / unit` in tenths, rounded to nearest with ties to the even tenth.
pub open spec fn rounded_tenths(kb: nat, unit: nat) -> nat {
    let q = kb * 10 / unit;
    let r = kb * 10 % unit;
    if 2 * r > unit || (2 * r == unit && q % 2 == 1) {
        q + 1
    } else {
        q
    }
}

/// A number of tenths as `whole.tenth`.
pub open spec fn tenths_chars(t: nat) -> Seq<char> {
    decimal_chars(t / 10) + seq!['.', digit_char((t % 10) as int)]
}

pub open spec fn kb_suffix() -> Seq<char> {
    seq![' ', 'K', 'B']
}

/// The larger unit that `kb` is shown in, with its size in KB, if any.
pub open spec fn memory_unit(kb: nat) -> Option<(nat, Seq<char>)> {
    if kb >= KB_PER_TB {
        Some((KB_PER_TB as nat, seq!['T', 'B']))
    } else if kb >= KB_PER_GB {
        Some((KB_PER_GB as nat, seq!['G', 'B']))
    } else if kb >= KB_PER_MB {
        Some((KB_PER_MB as nat, seq!['M', 'B']))
    } else {
        None
    }
}

/// `kb` with grouped digits, then in parentheses the size in the largest
/// unit it reaches, with one decimal and prefixed by `sign`.
pub open spec fn memory_text(sign: Seq<char>, kb: nat) -> Seq<char> {
    match memory_unit(kb) {
        Some((unit, name)) => sign + grouped_decimal(kb) + kb_suffix() + seq![' ', '('] + sign
            + tenths_chars(rounded_tenths(kb, unit)) + seq![' '] + name + seq![')'],
        None => sign + grouped_decimal(kb) + kb_suffix(),
    }
}

/// Magnitude of a signed value.
pub open spec fn magnitude(n: i64) -> nat {
    if n >= 0 {
        n as nat
    } else {
        (-n) as nat
    }
}

pub open spec fn sign_chars(n: i64) -> Seq<char> {
    if n >= 0 {
        seq!['+']
    } else {
        seq!['-']
    }
}

fn push_grouped(s: &mut String, n: u64)
    ensures
        final(s)@ == old(s)@ + grouped_decimal(n as nat),
    decreases n,
{
    if n < 1000 {
        push_decimal(s, n);
    } else {
        push_grouped(s, n / 1000);
        proof {
            reveal_strlit(",");
        }
        s.append(",");
        let m = n % 1000;
        s.append(digit_str(m / 100));
        s.append(digit_str(m / 10 % 10));
        s.append(digit_str(m % 10));
    }
}

/// `n` with a comma between groups of three digits: 1234567 is "1,234,567".
pub fn format_number(n: u64) -> (s: String)
    ensures
        s@ == grouped_decimal(n as nat),
{
    let mut s = String::new();
    push_grouped(&mut s, n);
    s
}

fn push_sign(s: &mut String, n: i64)
    ensures
        final(s)@ == old(s)@ + sign_chars(n),
{
    proof {
        reveal_strlit("+");
        reveal_strlit("-");
    }
    if n >= 0 {
        s.append("+");
    } else {
        s.append("-");
    }
}

fn unsigned_magnitude(n: i64) -> (m: u64)
    ensures
        m == magnitude(n),
{
    if n >= 0 {
        n as u64
    } else {
        (-(n as i128)) as u64
    }
}

/// `n` with its sign and grouped digits: -1234567 is "-1,234,567", 0 is "+0".
pub fn format_signed_number(n: i64) -> (s: String)
    ensures
        s@ == signed_grouped(n as int),
{
    let mut s = String::new();
    push_sign(&mut s, n);
    push_grouped(&mut s, unsigned_magnitude(n));
    s
}

fn push_tenths(s: &mut String, kb: u64, unit: u64)
    requires
        unit >= 1024,
    ensures
        final(s)@ == old(s)@ + tenths_chars(rounded_tenths(kb as nat, unit as nat)),
{
    let x = kb as u128 * 10;
    let q = x / unit as u128;
    let r = x % unit as u128;
    let t: u128 = if 2 * r > unit as u128 || (2 * r == unit as u128 && q % 2 == 1) {
        q + 1
    } else {
        q
    };
    assert(q <= kb as u128 * 10 / 1024) by (nonlinear_arith)
        requires
            q == x / unit as u128,
            x == kb as u128 * 10,
            unit >= 1024,
    ;
    let t = t as u64;
    push_decimal(s, t / 10);
    proof {
        reveal_strlit(".");
    }
    s.append(".");
    s.append(digit_str(t % 10));
}

fn push_memory(s: &mut String, sign: &str, kb: u64)
    ensures
        final(s)@ == old(s)@ + memory_text(sign@, kb as nat),
{
    proof {
        reveal_strlit(" KB");
        reveal_strlit(" (");
        reveal_strlit(" TB)");
        reveal_strlit(" GB)");
        reveal_strlit(" MB)");
    }
    s.append(sign);
    push_grouped(s, kb);
    s.append(" KB");
    if kb >= KB_PER_MB {
        s.append(" (");
        s.append(sign);
        if kb >= KB_PER_TB {
            push_tenths(s, kb, KB_PER_TB);
            s.append(" TB)");
        } else if kb >= KB_PER_GB {
            push_tenths(s, kb, KB_PER_GB);
            s.append(" GB)");
        } else {
            push_tenths(s, kb, KB_PER_MB);
            s.append(" MB)");
        }
    }
}

/// A size in KB with grouped digits and, from 1 MB on, its size in the
/// largest of MB, GB and TB that it reaches: 1536 is "1,536 KB (1.5 MB)".
pub fn format_memory_kb(kb: u64) -> (s: String)
    ensures
        s@ == memory_text(Seq::empty(), kb as nat),
{
    let mut s = String::new();
    proof {
        reveal_strlit("");
    }
    push_memory(&mut s, "", kb);
    s
}

/// A change of size in KB, signed in both renderings: -1536 is
/// "-1,536 KB (-1.5 MB)".
pub fn format_memory_change_kb(kb: i64) -> (s: String)
    ensures
        s@ == memory_text(sign_chars(kb), magnitude(kb)),
{
    let mut s = String::new();
    proof {
        reveal_strlit("+");
        reveal_strlit("-");
    }
    let sign = if kb >= 0 { "+" } else { "-" };
    push_memory(&mut s, sign, unsigned_magnitude(kb));
    s
}

} // verus!
