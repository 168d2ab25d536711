//! Decimal text: rendering numbers as characters, and scanning lines,
//! fields and numbers out of text.
use vstd::prelude::*;

verus! {

pub open spec fn digit_char(d: int) -> char {
    if d == 0 {
        '0'
    } else if d == 1 {
        '1'
    } else if d == 2 {
        '2'
    } else if d == 3 {
        '3'
    } else if d == 4 {
        '4'
    } else if d == 5 {
        '5'
    } else if d == 6 {
        '6'
    } else if d == 7 {
        '7'
    } else if d == 8 {
        '8'
    } else {
        '9'
    }
}

/// Value of a decimal digit character; `None` for any other character.
pub open spec fn digit_value(c: char) -> Option<int> {
    if c == '0' {
        Some(0int)
    } else if c == '1' {
        Some(1int)
    } else if c == '2' {
        Some(2int)
    } else if c == '3' {
        Some(3int)
    } else if c == '4' {
        Some(4int)
    } else if c == '5' {
        Some(5int)
    } else if c == '6' {
        Some(6int)
    } else if c == '7' {
        Some(7int)
    } else if c == '8' {
        Some(8int)
    } else if c == '9' {
        Some(9int)
    } else {
        None
    }
}

/// Decimal digits of `n`, without leading zeros.
pub open spec fn decimal_chars(n: nat) -> Seq<char>
    decreases n,
{
    if n < 10 {
        seq![digit_char(n as int)]
    } else {
        decimal_chars(n / 10) + seq![digit_char((n % 10) as int)]
    }
}

/// `n` with a leading sign, `+` for zero and above.
pub open spec fn signed_decimal_chars(n: int) -> Seq<char> {
    if n >= 0 {
        seq!['+'] + decimal_chars(n as nat)
    } else {
        seq!['-'] + decimal_chars((-n) as nat)
    }
}

/// The digit character of `d`, as a one-character string.
pub fn digit_str(d: u64) -> (s: &'static str)
    requires
        d < 10,
    ensures
        s@ == seq![digit_char(d as int)],
{
    proof {
        reveal_strlit("0");
        reveal_strlit("1");
        reveal_strlit("2");
        reveal_strlit("3");
        reveal_strlit("4");
        reveal_strlit("5");
        reveal_strlit("6");
        reveal_strlit("7");
        reveal_strlit("8");
        reveal_strlit("9");
    }
    match d {
        0 => "0",
        1 => "1",
        2 => "2",
        3 => "3",
        4 => "4",
        5 => "5",
        6 => "6",
        7 => "7",
        8 => "8",
        _ => "9",
    }
}

/// Appends the decimal digits of `n` to `s`.
pub fn push_decimal(s: &mut String, n: u64)
    ensures
        final(s)@ == old(s)@ + decimal_chars(n as nat),
    decreases n,
{
    if n >= 10 {
        push_decimal(s, n / 10);
        s.append(digit_str(n % 10));
        assert(final(s)@ == old(s)@ + decimal_chars(n as nat));
    } else {
        s.append(digit_str(n));
    }
}

/// Appends `n` with its sign to `s`: `+` for zero and above, `-` below.
pub fn push_signed_decimal(s: &mut String, n: i64)
    ensures
        final(s)@ == old(s)@ + signed_decimal_chars(n as int),
{
    proof {
        reveal_strlit("+");
        reveal_strlit("-");
    }
    if n >= 0 {
        s.append("+");
        push_decimal(s, n as u64);
    } else {
        s.append("-");
        push_decimal(s, (-(n as i128)) as u64);
    }
}

/// Whitespace between fields: the ASCII space characters.
pub open spec fn is_space(c: char) -> bool {
    c == ' ' || c == '\t' || c == '\n' || c == '\r' || c == '\x0B' || c == '\x0C'
}

pub fn is_space_char(c: char) -> (b: bool)
    ensures
        b == is_space(c),
{
    c == ' ' || c == '\t' || c == '\n' || c == '\r' || c == '\x0B' || c == '\x0C'
}

/// The characters of `s`.
pub fn chars_of(s: &str) -> (v: Vec<char>)
    ensures
        v@ == s@,
{
    let n = s.unicode_len();
    let mut v: Vec<char> = Vec::new();
    let mut i: usize = 0;
    while i < n
        invariant
            n == s@.len(),
            i <= n,
            v@ == s@.subrange(0, i as int),
        decreases n - i,
    {
        v.push(s.get_char(i));
        i = i + 1;
    }
    v
}

/// First index at or after `i` and before `end` holding `c`, else `end`.
pub open spec fn find_from(s: Seq<char>, i: int, end: int, c: char) -> int
    decreases end - i,
{
    if i >= end {
        end
    } else if s[i] == c {
        i
    } else {
        find_from(s, i + 1, end, c)
    }
}

/// First index at or after `i` and before `end` that is not a space, else `end`.
pub open spec fn skip_spaces(s: Seq<char>, i: int, end: int) -> int
    decreases end - i,
{
    if i >= end {
        end
    } else if is_space(s[i]) {
        skip_spaces(s, i + 1, end)
    } else {
        i
    }
}

/// First index at or after `i` and before `end` that is a space, else `end`.
pub open spec fn token_end(s: Seq<char>, i: int, end: int) -> int
    decreases end - i,
{
    if i >= end {
        end
    } else if is_space(s[i]) {
        i
    } else {
        token_end(s, i + 1, end)
    }
}

/// End of `s[start..end]` with trailing spaces removed.
pub open spec fn trim_end(s: Seq<char>, start: int, end: int) -> int
    decreases end - start,
{
    if end <= start {
        start
    } else if is_space(s[end - 1]) {
        trim_end(s, start, end - 1)
    } else {
        end
    }
}

pub fn find_char(s: &Vec<char>, i: usize, end: usize, c: char) -> (k: usize)
    requires
        i <= end <= s@.len(),
    ensures
        k == find_from(s@, i as int, end as int, c),
        i <= k <= end,
{
    let mut k = i;
    while k < end && s[k] != c
        invariant
            i <= k <= end <= s@.len(),
            find_from(s@, i as int, end as int, c) == find_from(s@, k as int, end as int, c),
        decreases end - k,
    {
        k = k + 1;
    }
    k
}

pub fn skip_space_chars(s: &Vec<char>, i: usize, end: usize) -> (k: usize)
    requires
        i <= end <= s@.len(),
    ensures
        k == skip_spaces(s@, i as int, end as int),
        i <= k <= end,
{
    let mut k = i;
    while k < end && is_space_char(s[k])
        invariant
            i <= k <= end <= s@.len(),
            skip_spaces(s@, i as int, end as int) == skip_spaces(s@, k as int, end as int),
        decreases end - k,
    {
        k = k + 1;
    }
    k
}

pub fn find_token_end(s: &Vec<char>, i: usize, end: usize) -> (k: usize)
    requires
        i <= end <= s@.len(),
    ensures
        k == token_end(s@, i as int, end as int),
        i <= k <= end,
{
    let mut k = i;
    while k < end && !is_space_char(s[k])
        invariant
            i <= k <= end <= s@.len(),
            token_end(s@, i as int, end as int) == token_end(s@, k as int, end as int),
        decreases end - k,
    {
        k = k + 1;
    }
    k
}

pub fn trim_end_index(s: &Vec<char>, start: usize, end: usize) -> (k: usize)
    requires
        start <= end <= s@.len(),
    ensures
        k == trim_end(s@, start as int, end as int),
        start <= k <= end,
{
    let mut k = end;
    while k > start && is_space_char(s[k - 1])
        invariant
            start <= k <= end <= s@.len(),
            trim_end(s@, start as int, end as int) == trim_end(s@, start as int, k as int),
        decreases k - start,
    {
        k = k - 1;
    }
    k
}

/// Value of a string of decimal digits, or `None` when some character is not one.
pub open spec fn digits_value(d: Seq<char>) -> Option<int>
    decreases d.len(),
{
    if d.len() == 0 {
        Some(0int)
    } else {
        match (digits_value(d.drop_last()), digit_value(d.last())) {
            (Some(v), Some(x)) => Some(v * 10 + x),
            _ => None,
        }
    }
}

/// An unsigned number as Rust's `u64::from_str` reads it: an optional `+`,
/// then one or more decimal digits, with a value that fits in 64 bits.
pub open spec fn parse_u64_spec(t: Seq<char>) -> Option<u64> {
    let d = if t.len() > 0 && t[0] == '+' {
        t.drop_first()
    } else {
        t
    };
    if d.len() == 0 {
        None
    } else {
        match digits_value(d) {
            Some(v) => if v <= u64::MAX {
                Some(v as u64)
            } else {
                None
            },
            None => None,
        }
    }
}

proof fn lemma_digits_value_nonneg(d: Seq<char>)
    ensures
        digits_value(d) matches Some(v) ==> v >= 0,
    decreases d.len(),
{
    if d.len() > 0 {
        lemma_digits_value_nonneg(d.drop_last());
    }
}

/// Digits after a prefix whose value is already too large keep it too large,
/// or make the string invalid.
proof fn lemma_digits_value_grows(d: Seq<char>, k: int)
    requires
        0 <= k <= d.len(),
        digits_value(d.subrange(0, k)) matches Some(v) && v > u64::MAX,
    ensures
        digits_value(d) matches Some(w) ==> w > u64::MAX,
    decreases d.len() - k,
{
    if k < d.len() {
        let p = d.subrange(0, k + 1);
        assert(p.drop_last() == d.subrange(0, k));
        lemma_digits_value_nonneg(d.subrange(0, k));
        if digits_value(p) is Some {
            lemma_digits_value_grows(d, k + 1);
        } else {
            lemma_digits_invalid_prefix(d, k + 1);
        }
    } else {
        assert(d.subrange(0, k) == d);
    }
}

/// An invalid prefix makes the whole string invalid.
proof fn lemma_digits_invalid_prefix(d: Seq<char>, k: int)
    requires
        0 <= k <= d.len(),
        digits_value(d.subrange(0, k)) is None,
    ensures
        digits_value(d) is None,
    decreases d.len() - k,
{
    if k < d.len() {
        let p = d.subrange(0, k + 1);
        assert(p.drop_last() == d.subrange(0, k));
        lemma_digits_invalid_prefix(d, k + 1);
    } else {
        assert(d.subrange(0, k) == d);
    }
}

fn decimal_digit(c: char) -> (v: Option<u64>)
    ensures
        v matches Some(x) ==> digit_value(c) == Some(x as int) && x < 10,
        v is None ==> digit_value(c) is None,
{
    match c {
        '0' => Some(0),
        '1' => Some(1),
        '2' => Some(2),
        '3' => Some(3),
        '4' => Some(4),
        '5' => Some(5),
        '6' => Some(6),
        '7' => Some(7),
        '8' => Some(8),
        '9' => Some(9),
        _ => None,
    }
}

/// Reads `s[start..end]` as an unsigned number, as `u64::from_str` does.
pub fn parse_u64_at(s: &Vec<char>, start: usize, end: usize) -> (r: Option<u64>)
    requires
        start <= end <= s@.len(),
    ensures
        r == parse_u64_spec(s@.subrange(start as int, end as int)),
{
    let ghost t = s@.subrange(start as int, end as int);
    let mut i = start;
    if i < end && s[i] == '+' {
        i = i + 1;
    }
    let ghost d = s@.subrange(i as int, end as int);
    proof {
        if t.len() > 0 && t[0] == '+' {
            assert(d == t.drop_first());
        } else {
            assert(d == t);
        }
    }
    if i == end {
        return None;
    }
    let mut value: u64 = 0;
    let mut k = i;
    while k < end
        invariant
            i <= k <= end <= s@.len(),
            i < end,
            d == s@.subrange(i as int, end as int),
            t == s@.subrange(start as int, end as int),
            d == (if t.len() > 0 && t[0] == '+' {
                t.drop_first()
            } else {
                t
            }),
            digits_value(d.subrange(0, k - i)) == Some(value as int),
        decreases end - k,
    {
        let ghost p = d.subrange(0, k - i + 1);
        proof {
            assert(p.drop_last() == d.subrange(0, k - i));
            assert(p.last() == s@[k as int]);
        }
        let x = match decimal_digit(s[k]) {
            Some(x) => x,
            None => {
                proof {
                    lemma_digits_invalid_prefix(d, k - i + 1);
                }
                return None;
            },
        };
        if value > (u64::MAX - x) / 10 {
            proof {
                assert(value * 10 + x > u64::MAX) by (nonlinear_arith)
                    requires
                        value > (u64::MAX - x) / 10,
                        x <= 9,
                ;
                lemma_digits_value_grows(d, k - i + 1);
            }
            return None;
        }
        proof {
            assert(value * 10 + x <= u64::MAX) by (nonlinear_arith)
                requires
                    value <= (u64::MAX - x) / 10,
                    x <= 9,
            ;
        }
        value = value * 10 + x;
        k = k + 1;
    }
    proof {
        assert(d.subrange(0, k - i) == d);
    }
    Some(value)
}

/// Value of a hexadecimal digit character, either case; `None` for any other character.
pub open spec fn hex_digit_value(c: char) -> Option<int> {
    if digit_value(c) is Some {
        digit_value(c)
    } else if c == 'a' || c == 'A' {
        Some(10int)
    } else if c == 'b' || c == 'B' {
        Some(11int)
    } else if c == 'c' || c == 'C' {
        Some(12int)
    } else if c == 'd' || c == 'D' {
        Some(13int)
    } else if c == 'e' || c == 'E' {
        Some(14int)
    } else if c == 'f' || c == 'F' {
        Some(15int)
    } else {
        None
    }
}

pub open spec fn hex_digits_value(d: Seq<char>) -> Option<int>
    decreases d.len(),
{
    if d.len() == 0 {
        Some(0int)
    } else {
        match (hex_digits_value(d.drop_last()), hex_digit_value(d.last())) {
            (Some(v), Some(x)) => Some(v * 16 + x),
            _ => None,
        }
    }
}

/// An unsigned number as `u64::from_str_radix(_, 16)` reads it: an optional
/// `+`, then one or more hexadecimal digits, with a value that fits in 64 bits.
pub open spec fn parse_hex_u64_spec(t: Seq<char>) -> Option<u64> {
    let d = if t.len() > 0 && t[0] == '+' {
        t.drop_first()
    } else {
        t
    };
    if d.len() == 0 {
        None
    } else {
        match hex_digits_value(d) {
            Some(v) => if v <= u64::MAX {
                Some(v as u64)
            } else {
                None
            },
            None => None,
        }
    }
}

proof fn lemma_hex_value_nonneg(d: Seq<char>)
    ensures
        hex_digits_value(d) matches Some(v) ==> v >= 0,
    decreases d.len(),
{
    if d.len() > 0 {
        lemma_hex_value_nonneg(d.drop_last());
    }
}

proof fn lemma_hex_invalid_prefix(d: Seq<char>, k: int)
    requires
        0 <= k <= d.len(),
        hex_digits_value(d.subrange(0, k)) is None,
    ensures
        hex_digits_value(d) is None,
    decreases d.len() - k,
{
    if k < d.len() {
        assert(d.subrange(0, k + 1).drop_last() == d.subrange(0, k));
        lemma_hex_invalid_prefix(d, k + 1);
    } else {
        assert(d.subrange(0, k) == d);
    }
}

proof fn lemma_hex_value_grows(d: Seq<char>, k: int)
    requires
        0 <= k <= d.len(),
        hex_digits_value(d.subrange(0, k)) matches Some(v) && v > u64::MAX,
    ensures
        hex_digits_value(d) matches Some(w) ==> w > u64::MAX,
    decreases d.len() - k,
{
    if k < d.len() {
        let p = d.subrange(0, k + 1);
        assert(p.drop_last() == d.subrange(0, k));
        lemma_hex_value_nonneg(d.subrange(0, k));
        if hex_digits_value(p) is Some {
            lemma_hex_value_grows(d, k + 1);
        } else {
            lemma_hex_invalid_prefix(d, k + 1);
        }
    } else {
        assert(d.subrange(0, k) == d);
    }
}

fn hex_digit(c: char) -> (v: Option<u64>)
    ensures
        v matches Some(x) ==> hex_digit_value(c) == Some(x as int) && x < 16,
        v is None ==> hex_digit_value(c) is None,
{
    match decimal_digit(c) {
        Some(d) => Some(d),
        None => match c {
            'a' | 'A' => Some(10),
            'b' | 'B' => Some(11),
            'c' | 'C' => Some(12),
            'd' | 'D' => Some(13),
            'e' | 'E' => Some(14),
            'f' | 'F' => Some(15),
            _ => None,
        },
    }
}

/// Reads `s[start..end]` as a hexadecimal unsigned number, as
/// `u64::from_str_radix(_, 16)` does.
pub fn parse_hex_u64_at(s: &Vec<char>, start: usize, end: usize) -> (r: Option<u64>)
    requires
        start <= end <= s@.len(),
    ensures
        r == parse_hex_u64_spec(s@.subrange(start as int, end as int)),
{
    let ghost t = s@.subrange(start as int, end as int);
    let mut i = start;
    if i < end && s[i] == '+' {
        i = i + 1;
    }
    let ghost d = s@.subrange(i as int, end as int);
    proof {
        if t.len() > 0 && t[0] == '+' {
            assert(d == t.drop_first());
        } else {
            assert(d == t);
        }
    }
    if i == end {
        return None;
    }
    let mut value: u64 = 0;
    let mut k = i;
    while k < end
        invariant
            i <= k <= end <= s@.len(),
            i < end,
            d == s@.subrange(i as int, end as int),
            t == s@.subrange(start as int, end as int),
            d == (if t.len() > 0 && t[0] == '+' {
                t.drop_first()
            } else {
                t
            }),
            hex_digits_value(d.subrange(0, k - i)) == Some(value as int),
        decreases end - k,
    {
        let ghost p = d.subrange(0, k - i + 1);
        proof {
            assert(p.drop_last() == d.subrange(0, k - i));
            assert(p.last() == s@[k as int]);
        }
        let x = match hex_digit(s[k]) {
            Some(x) => x,
            None => {
                proof {
                    lemma_hex_invalid_prefix(d, k - i + 1);
                }
                return None;
            },
        };
        if value > (u64::MAX - x) / 16 {
            proof {
                assert(value * 16 + x > u64::MAX) by (nonlinear_arith)
                    requires
                        value > (u64::MAX - x) / 16,
                        x <= 15,
                ;
                lemma_hex_value_grows(d, k - i + 1);
            }
            return None;
        }
        proof {
            assert(value * 16 + x <= u64::MAX) by (nonlinear_arith)
                requires
                    value <= (u64::MAX - x) / 16,
                    x <= 15,
            ;
        }
        value = value * 16 + x;
        k = k + 1;
    }
    proof {
        assert(d.subrange(0, k - i) == d);
    }
    Some(value)
}

/// A page frame number as given on a command line: hexadecimal after `0x`,
/// else decimal.
pub open spec fn pfn_arg_spec(t: Seq<char>) -> Option<u64> {
    if t.len() >= 2 && t[0] == '0' && t[1] == 'x' {
        parse_hex_u64_spec(t.subrange(2, t.len() as int))
    } else {
        parse_u64_spec(t)
    }
}

/// Reads a page frame number: hexadecimal after `0x`, else decimal.
pub fn parse_pfn(arg: &str) -> (r: Option<u64>)
    ensures
        r == pfn_arg_spec(arg@),
{
    let s = chars_of(arg);
    if s.len() >= 2 && s[0] == '0' && s[1] == 'x' {
        parse_hex_u64_at(&s, 2, s.len())
    } else {
        proof {
            assert(s@.subrange(0, s@.len() as int) == s@);
        }
        parse_u64_at(&s, 0, s.len())
    }
}

} // verus!
