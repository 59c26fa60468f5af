use vstd::prelude::*;

use crate::helpers::ViewEq;
use crate::strings::{
    decimal, digits_value, leading_digits, lemma_decimal_digits, lemma_leading_digits,
    lemma_leading_digits_of_concat, push_char, push_decimal, read_leading_digits, is_digit,
    ascii_lower_code, is_none_word, none_word,
};

verus! {

/// The amount written in `s` as decimal digits followed directly by a unit, scaled by the
/// unit's factor; `None` when there are no digits or the unit is not known to `factor`.
pub open spec fn amount_with_unit(s: Seq<char>, factor: spec_fn(Seq<char>) -> Option<nat>) -> Option<
    nat,
> {
    let k = leading_digits(s);
    if k == 0 {
        None
    } else {
        match factor(s.skip(k as int)) {
            Some(f) => Some(digits_value(s.take(k as int)) * f),
            None => None,
        }
    }
}

/// An amount that fits in a `u64`.
pub open spec fn fitting(v: Option<nat>) -> Option<u64> {
    match v {
        Some(n) => if n <= u64::MAX {
            Some(n as u64)
        } else {
            None
        },
        None => None,
    }
}

/// A number written in decimal followed by a unit reads back as the number times the
/// unit's factor.
pub proof fn lemma_amount_of_text(
    q: nat,
    u: Seq<char>,
    f: nat,
    factor: spec_fn(Seq<char>) -> Option<nat>,
)
    requires
        factor(u) == Some(f),
        u.len() > 0,
        !is_digit(u[0]),
    ensures
        amount_with_unit(decimal(q) + u, factor) == Some(q * f),
{
    lemma_decimal_digits(q);
    lemma_leading_digits_of_concat(decimal(q), u);
}

/// A number written in decimal followed by a unit is not the word `none`.
pub proof fn lemma_amount_text_not_none(q: nat, u: Seq<char>)
    ensures
        !is_none_word(decimal(q) + u),
{
    lemma_decimal_digits(q);
    assert((decimal(q) + u)[0] == decimal(q)[0]);
    assert(is_digit(decimal(q)[0]));
    assert(ascii_lower_code(none_word()[0]) == 110);
}

/// `(m / f) * f == m` when `f` divides `m`.
pub proof fn lemma_exact_quotient(m: nat, f: nat)
    requires
        f > 0,
        m % f == 0,
    ensures
        (m / f) * f == m,
{
    vstd::arithmetic::div_mod::lemma_fundamental_div_mod(m as int, f as int);
    vstd::arithmetic::mul::lemma_mul_is_commutative(f as int, (m / f) as int);
}

// ---------------------------------------------------------------------------
// Durations
// ---------------------------------------------------------------------------

/// A length of time, counted in milliseconds.
#[derive(Clone, Copy, Debug, PartialEq, Eq)]
pub struct DurationValue {
    pub millis: u64,
}

impl DeepView for DurationValue {
    type V = u64;

    open spec fn deep_view(&self) -> u64 {
        self.millis
    }
}

impl ViewEq for DurationValue {
    fn view_eq(&self, other: &Self) -> (r: bool) {
        self.millis == other.millis
    }
}

/// Milliseconds per unit of a duration: `ms`, `s`, `m`, `h` and `d`.
pub open spec fn duration_unit_factor(u: Seq<char>) -> Option<nat> {
    if u == seq!['m', 's'] {
        Some(1)
    } else if u == seq!['s'] {
        Some(1000)
    } else if u == seq!['m'] {
        Some(60_000)
    } else if u == seq!['h'] {
        Some(3_600_000)
    } else if u == seq!['d'] {
        Some(86_400_000)
    } else {
        None
    }
}

/// The milliseconds a duration text such as `500ms`, `90s`, `5m`, `1h` or `7d` stands for.
pub open spec fn parse_duration_spec(s: Seq<char>) -> Option<u64> {
    fitting(amount_with_unit(s, |u: Seq<char>| duration_unit_factor(u)))
}

/// How a duration is displayed: in the largest of `d`, `h`, `m` and `s` that divides it
/// exactly, else in `ms`.
pub open spec fn duration_text(ms: nat) -> Seq<char> {
    if ms != 0 && ms % 86_400_000 == 0 {
        decimal(ms / 86_400_000) + seq!['d']
    } else if ms != 0 && ms % 3_600_000 == 0 {
        decimal(ms / 3_600_000) + seq!['h']
    } else if ms != 0 && ms % 60_000 == 0 {
        decimal(ms / 60_000) + seq!['m']
    } else if ms != 0 && ms % 1000 == 0 {
        decimal(ms / 1000) + seq!['s']
    } else {
        decimal(ms) + seq!['m', 's']
    }
}

/// The milliseconds per unit of the duration unit `u`.
fn duration_unit(u: &str) -> (r: Option<u64>)
    ensures
        match duration_unit_factor(u@) {
            Some(f) => r == Some(f as u64),
            None => r is None,
        },
{
    let n = u.unicode_len();
    if n == 1 {
        let c = u.get_char(0);
        proof {
            assert(u@ =~= seq![c]);
        }
        if c == 's' {
            Some(1000)
        } else if c == 'm' {
            Some(60_000)
        } else if c == 'h' {
            Some(3_600_000)
        } else if c == 'd' {
            Some(86_400_000)
        } else {
            None
        }
    } else if n == 2 && u.get_char(0) == 'm' && u.get_char(1) == 's' {
        proof {
            assert(u@ =~= seq!['m', 's']);
        }
        Some(1)
    } else {
        proof {
            if n == 2 {
                assert(u@ != seq!['m', 's']) by {
                    if u@ == seq!['m', 's'] {
                        assert(u@[0] == 'm' && u@[1] == 's');
                    }
                }
            }
        }
        None
    }
}

/// A duration's display text reads back as the same duration.
pub proof fn lemma_duration_text_parses_back(ms: u64)
    ensures
        parse_duration_spec(duration_text(ms as nat)) == Some(ms),
{
    let m = ms as nat;
    let factor = |u: Seq<char>| duration_unit_factor(u);
    let (ms_u, s_u, m_u, h_u, d_u) = (seq!['m', 's'], seq!['s'], seq!['m'], seq!['h'], seq!['d']);
    assert(s_u[0] == 's' && m_u[0] == 'm' && h_u[0] == 'h' && d_u[0] == 'd');
    assert(m_u != s_u && h_u != s_u && h_u != m_u && d_u != s_u && d_u != m_u && d_u != h_u);
    if m != 0 && m % 86_400_000 == 0 {
        lemma_exact_quotient(m, 86_400_000);
        lemma_amount_of_text(m / 86_400_000, seq!['d'], 86_400_000, factor);
    } else if m != 0 && m % 3_600_000 == 0 {
        lemma_exact_quotient(m, 3_600_000);
        lemma_amount_of_text(m / 3_600_000, seq!['h'], 3_600_000, factor);
    } else if m != 0 && m % 60_000 == 0 {
        lemma_exact_quotient(m, 60_000);
        lemma_amount_of_text(m / 60_000, seq!['m'], 60_000, factor);
    } else if m != 0 && m % 1000 == 0 {
        lemma_exact_quotient(m, 1000);
        lemma_amount_of_text(m / 1000, seq!['s'], 1000, factor);
    } else {
        lemma_amount_of_text(m, seq!['m', 's'], 1, factor);
    }
}

/// A duration's display text is not the word `none`.
pub proof fn lemma_duration_text_not_none(ms: u64)
    ensures
        !is_none_word(duration_text(ms as nat)),
{
    let m = ms as nat;
    if m != 0 && m % 86_400_000 == 0 {
        lemma_amount_text_not_none(m / 86_400_000, seq!['d']);
    } else if m != 0 && m % 3_600_000 == 0 {
        lemma_amount_text_not_none(m / 3_600_000, seq!['h']);
    } else if m != 0 && m % 60_000 == 0 {
        lemma_amount_text_not_none(m / 60_000, seq!['m']);
    } else if m != 0 && m % 1000 == 0 {
        lemma_amount_text_not_none(m / 1000, seq!['s']);
    } else {
        lemma_amount_text_not_none(m, seq!['m', 's']);
    }
}

impl DurationValue {
    /// A duration of `millis` milliseconds.
    pub fn from_millis(millis: u64) -> (r: DurationValue)
        ensures
            r.millis == millis,
    {
        DurationValue { millis }
    }

    /// A duration of `secs` seconds.
    pub fn from_secs(secs: u64) -> (r: DurationValue)
        requires
            secs * 1000 <= u64::MAX,
        ensures
            r.millis == secs * 1000,
    {
        DurationValue { millis: secs * 1000 }
    }

    /// The duration in milliseconds.
    pub fn as_millis(&self) -> (r: u64)
        ensures
            r == self.millis,
    {
        self.millis
    }

    /// Reads a duration such as `500ms`, `90s`, `5m`, `1h` or `7d`.
    pub fn parse_text(input: &str) -> (r: Option<DurationValue>)
        ensures
            match parse_duration_spec(input@) {
                Some(v) => r == Some(DurationValue { millis: v }),
                None => r is None,
            },
    {
        let (k, value) = read_leading_digits(input);
        if k == 0 {
            return None;
        }
        let n = input.unicode_len();
        proof {
            lemma_leading_digits(input@);
        }
        let unit = input.substring_char(k, n);
        proof {
            assert(unit@ =~= input@.skip(k as int));
        }
        let factor = match duration_unit(unit) {
            Some(f) => f,
            None => {
                return None;
            },
        };
        match value {
            Some(v) => {
                assert((v as u128) * (factor as u128) <= 0xffff_ffff_ffff_ffff * 86_400_000)
                    by (nonlinear_arith)
                    requires
                        factor <= 86_400_000,
                ;
                let total = (v as u128) * (factor as u128);
                if total <= 0xffff_ffff_ffff_ffff {
                    Some(DurationValue { millis: total as u64 })
                } else {
                    None
                }
            },
            None => {
                proof {
                    assert(digits_value(input@.take(k as int)) * factor >= digits_value(
                        input@.take(k as int),
                    )) by (nonlinear_arith)
                        requires
                            factor >= 1,
                    ;
                }
                None
            },
        }
    }

    /// The text this duration is displayed as.
    pub fn to_text(&self) -> (r: String)
        ensures
            r@ == duration_text(self.millis as nat),
    {
        let ms = self.millis;
        let mut out = String::new();
        if ms != 0 && ms % 86_400_000 == 0 {
            push_decimal(&mut out, ms / 86_400_000);
            push_char(&mut out, 'd');
        } else if ms != 0 && ms % 3_600_000 == 0 {
            push_decimal(&mut out, ms / 3_600_000);
            push_char(&mut out, 'h');
        } else if ms != 0 && ms % 60_000 == 0 {
            push_decimal(&mut out, ms / 60_000);
            push_char(&mut out, 'm');
        } else if ms != 0 && ms % 1000 == 0 {
            push_decimal(&mut out, ms / 1000);
            push_char(&mut out, 's');
        } else {
            push_decimal(&mut out, ms);
            push_char(&mut out, 'm');
            push_char(&mut out, 's');
        }
        assert(out@ =~= duration_text(ms as nat));
        out
    }
}


// ---------------------------------------------------------------------------
// File sizes
// ---------------------------------------------------------------------------

/// An amount of storage, counted in bytes.
#[derive(Clone, Copy, Debug, PartialEq, Eq)]
pub struct FileSizeValue {
    pub bytes: u64,
}

impl DeepView for FileSizeValue {
    type V = u64;

    open spec fn deep_view(&self) -> u64 {
        self.bytes
    }
}

impl ViewEq for FileSizeValue {
    fn view_eq(&self, other: &Self) -> (r: bool) {
        self.bytes == other.bytes
    }
}

/// Bytes per unit of a file size: `B`, the decimal `KB`, `MB`, `GB`, `TB` and the binary
/// `KiB`, `MiB`, `GiB`, `TiB`.
pub open spec fn size_unit_factor(u: Seq<char>) -> Option<nat> {
    if u == seq!['B'] {
        Some(1)
    } else if u == seq!['K', 'B'] {
        Some(1_000)
    } else if u == seq!['M', 'B'] {
        Some(1_000_000)
    } else if u == seq!['G', 'B'] {
        Some(1_000_000_000)
    } else if u == seq!['T', 'B'] {
        Some(1_000_000_000_000)
    } else if u == seq!['K', 'i', 'B'] {
        Some(0x400)
    } else if u == seq!['M', 'i', 'B'] {
        Some(0x10_0000)
    } else if u == seq!['G', 'i', 'B'] {
        Some(0x4000_0000)
    } else if u == seq!['T', 'i', 'B'] {
        Some(0x100_0000_0000)
    } else {
        None
    }
}

/// The bytes a file size text such as `20GB`, `500MB` or `2MiB` stands for.
pub open spec fn parse_file_size_spec(s: Seq<char>) -> Option<u64> {
    fitting(amount_with_unit(s, |u: Seq<char>| size_unit_factor(u)))
}

/// How a file size is displayed: in the first of `TB`, `TiB`, `GB`, `GiB`, `MB`, `MiB`,
/// `KB`, `KiB` that divides it exactly, else in `B`.
pub open spec fn file_size_text(b: nat) -> Seq<char> {
    if b != 0 && b % 1_000_000_000_000 == 0 {
        decimal(b / 1_000_000_000_000) + seq!['T', 'B']
    } else if b != 0 && b % 0x100_0000_0000 == 0 {
        decimal(b / 0x100_0000_0000) + seq!['T', 'i', 'B']
    } else if b != 0 && b % 1_000_000_000 == 0 {
        decimal(b / 1_000_000_000) + seq!['G', 'B']
    } else if b != 0 && b % 0x4000_0000 == 0 {
        decimal(b / 0x4000_0000) + seq!['G', 'i', 'B']
    } else if b != 0 && b % 1_000_000 == 0 {
        decimal(b / 1_000_000) + seq!['M', 'B']
    } else if b != 0 && b % 0x10_0000 == 0 {
        decimal(b / 0x10_0000) + seq!['M', 'i', 'B']
    } else if b != 0 && b % 1_000 == 0 {
        decimal(b / 1_000) + seq!['K', 'B']
    } else if b != 0 && b % 0x400 == 0 {
        decimal(b / 0x400) + seq!['K', 'i', 'B']
    } else {
        decimal(b) + seq!['B']
    }
}

/// The bytes per unit of the file-size unit `u`.
fn size_unit(u: &str) -> (r: Option<u64>)
    ensures
        match size_unit_factor(u@) {
            Some(f) => r == Some(f as u64),
            None => r is None,
        },
{
    let n = u.unicode_len();
    if n == 1 {
        let c0 = u.get_char(0);
        proof {
            assert(u@ =~= seq![c0]);
        }
        if c0 == 'B' {
            Some(1)
        } else {
            None
        }
    } else if n == 2 {
        let c0 = u.get_char(0);
        let c1 = u.get_char(1);
        proof {
            assert(u@ =~= seq![c0, c1]);
        }
        if c1 != 'B' {
            proof {
                assert(u@[1] != 'B');
            }
            None
        } else if c0 == 'K' {
            Some(1_000)
        } else if c0 == 'M' {
            Some(1_000_000)
        } else if c0 == 'G' {
            Some(1_000_000_000)
        } else if c0 == 'T' {
            Some(1_000_000_000_000)
        } else {
            None
        }
    } else if n == 3 {
        let c0 = u.get_char(0);
        let c1 = u.get_char(1);
        let c2 = u.get_char(2);
        proof {
            assert(u@ =~= seq![c0, c1, c2]);
        }
        if c1 != 'i' || c2 != 'B' {
            proof {
                assert(u@[1] != 'i' || u@[2] != 'B');
            }
            None
        } else if c0 == 'K' {
            Some(0x400)
        } else if c0 == 'M' {
            Some(0x10_0000)
        } else if c0 == 'G' {
            Some(0x4000_0000)
        } else if c0 == 'T' {
            Some(0x100_0000_0000)
        } else {
            None
        }
    } else {
        None
    }
}

/// The units of file sizes are told apart by their characters.
proof fn lemma_size_units_distinct()
    ensures
        size_unit_factor(seq!['B']) == Some(1nat),
        size_unit_factor(seq!['K', 'B']) == Some(1_000nat),
        size_unit_factor(seq!['M', 'B']) == Some(1_000_000nat),
        size_unit_factor(seq!['G', 'B']) == Some(1_000_000_000nat),
        size_unit_factor(seq!['T', 'B']) == Some(1_000_000_000_000nat),
        size_unit_factor(seq!['K', 'i', 'B']) == Some(0x400nat),
        size_unit_factor(seq!['M', 'i', 'B']) == Some(0x10_0000nat),
        size_unit_factor(seq!['G', 'i', 'B']) == Some(0x4000_0000nat),
        size_unit_factor(seq!['T', 'i', 'B']) == Some(0x100_0000_0000nat),
{
    let (kb, mb, gb, tb) = (seq!['K', 'B'], seq!['M', 'B'], seq!['G', 'B'], seq!['T', 'B']);
    let (kib, mib, gib, tib) = (
        seq!['K', 'i', 'B'],
        seq!['M', 'i', 'B'],
        seq!['G', 'i', 'B'],
        seq!['T', 'i', 'B'],
    );
    assert(kb[0] == 'K' && mb[0] == 'M' && gb[0] == 'G' && tb[0] == 'T');
    assert(kib[0] == 'K' && mib[0] == 'M' && gib[0] == 'G' && tib[0] == 'T');
    assert(mb != kb && gb != kb && gb != mb && tb != kb && tb != mb && tb != gb);
    assert(mib != kib && gib != kib && gib != mib && tib != kib && tib != mib && tib != gib);
}

/// A file size's display text reads back as the same file size.
pub proof fn lemma_file_size_text_parses_back(bytes: u64)
    ensures
        parse_file_size_spec(file_size_text(bytes as nat)) == Some(bytes),
{
    let b = bytes as nat;
    let factor = |u: Seq<char>| size_unit_factor(u);
    lemma_size_units_distinct();
    if b != 0 && b % 1_000_000_000_000 == 0 {
        lemma_exact_quotient(b, 1_000_000_000_000);
        lemma_amount_of_text(b / 1_000_000_000_000, seq!['T', 'B'], 1_000_000_000_000, factor);
    } else if b != 0 && b % 0x100_0000_0000 == 0 {
        lemma_exact_quotient(b, 0x100_0000_0000);
        lemma_amount_of_text(b / 0x100_0000_0000, seq!['T', 'i', 'B'], 0x100_0000_0000, factor);
    } else if b != 0 && b % 1_000_000_000 == 0 {
        lemma_exact_quotient(b, 1_000_000_000);
        lemma_amount_of_text(b / 1_000_000_000, seq!['G', 'B'], 1_000_000_000, factor);
    } else if b != 0 && b % 0x4000_0000 == 0 {
        lemma_exact_quotient(b, 0x4000_0000);
        lemma_amount_of_text(b / 0x4000_0000, seq!['G', 'i', 'B'], 0x4000_0000, factor);
    } else if b != 0 && b % 1_000_000 == 0 {
        lemma_exact_quotient(b, 1_000_000);
        lemma_amount_of_text(b / 1_000_000, seq!['M', 'B'], 1_000_000, factor);
    } else if b != 0 && b % 0x10_0000 == 0 {
        lemma_exact_quotient(b, 0x10_0000);
        lemma_amount_of_text(b / 0x10_0000, seq!['M', 'i', 'B'], 0x10_0000, factor);
    } else if b != 0 && b % 1_000 == 0 {
        lemma_exact_quotient(b, 1_000);
        lemma_amount_of_text(b / 1_000, seq!['K', 'B'], 1_000, factor);
    } else if b != 0 && b % 0x400 == 0 {
        lemma_exact_quotient(b, 0x400);
        lemma_amount_of_text(b / 0x400, seq!['K', 'i', 'B'], 0x400, factor);
    } else {
        lemma_amount_of_text(b, seq!['B'], 1, factor);
    }
}

/// A file size's display text is not the word `none`.
pub proof fn lemma_file_size_text_not_none(bytes: u64)
    ensures
        !is_none_word(file_size_text(bytes as nat)),
{
    let b = bytes as nat;
    if b != 0 && b % 1_000_000_000_000 == 0 {
        lemma_amount_text_not_none(b / 1_000_000_000_000, seq!['T', 'B']);
    } else if b != 0 && b % 0x100_0000_0000 == 0 {
        lemma_amount_text_not_none(b / 0x100_0000_0000, seq!['T', 'i', 'B']);
    } else if b != 0 && b % 1_000_000_000 == 0 {
        lemma_amount_text_not_none(b / 1_000_000_000, seq!['G', 'B']);
    } else if b != 0 && b % 0x4000_0000 == 0 {
        lemma_amount_text_not_none(b / 0x4000_0000, seq!['G', 'i', 'B']);
    } else if b != 0 && b % 1_000_000 == 0 {
        lemma_amount_text_not_none(b / 1_000_000, seq!['M', 'B']);
    } else if b != 0 && b % 0x10_0000 == 0 {
        lemma_amount_text_not_none(b / 0x10_0000, seq!['M', 'i', 'B']);
    } else if b != 0 && b % 1_000 == 0 {
        lemma_amount_text_not_none(b / 1_000, seq!['K', 'B']);
    } else if b != 0 && b % 0x400 == 0 {
        lemma_amount_text_not_none(b / 0x400, seq!['K', 'i', 'B']);
    } else {
        lemma_amount_text_not_none(b, seq!['B']);
    }
}

impl FileSizeValue {
    /// A size of `bytes` bytes.
    pub fn from_bytes(bytes: u64) -> (r: FileSizeValue)
        ensures
            r.bytes == bytes,
    {
        FileSizeValue { bytes }
    }

    /// `n` decimal megabytes.
    pub fn from_mb(n: u64) -> (r: FileSizeValue)
        requires
            n * 1_000_000 <= u64::MAX,
        ensures
            r.bytes == n * 1_000_000,
    {
        FileSizeValue { bytes: n * 1_000_000 }
    }

    /// `n` decimal gigabytes.
    pub fn from_gb(n: u64) -> (r: FileSizeValue)
        requires
            n * 1_000_000_000 <= u64::MAX,
        ensures
            r.bytes == n * 1_000_000_000,
    {
        FileSizeValue { bytes: n * 1_000_000_000 }
    }

    /// `n` binary mebibytes.
    pub fn from_mib(n: u64) -> (r: FileSizeValue)
        requires
            n * 0x10_0000 <= u64::MAX,
        ensures
            r.bytes == n * 0x10_0000,
    {
        FileSizeValue { bytes: n * 0x10_0000 }
    }

    /// The size in bytes.
    pub fn as_bytes(&self) -> (r: u64)
        ensures
            r == self.bytes,
    {
        self.bytes
    }

    /// Reads a file size such as `20GB`, `500MB` or `2MiB`.
    pub fn parse_text(input: &str) -> (r: Option<FileSizeValue>)
        ensures
            match parse_file_size_spec(input@) {
                Some(v) => r == Some(FileSizeValue { bytes: v }),
                None => r is None,
            },
    {
        let (k, value) = read_leading_digits(input);
        if k == 0 {
            return None;
        }
        let n = input.unicode_len();
        proof {
            lemma_leading_digits(input@);
        }
        let unit = input.substring_char(k, n);
        proof {
            assert(unit@ =~= input@.skip(k as int));
        }
        let factor = match size_unit(unit) {
            Some(f) => f,
            None => {
                return None;
            },
        };
        match value {
            Some(v) => {
                assert((v as u128) * (factor as u128) <= 0xffff_ffff_ffff_ffff * 0x100_0000_0000)
                    by (nonlinear_arith)
                    requires
                        factor <= 0x100_0000_0000,
                ;
                let total = (v as u128) * (factor as u128);
                if total <= 0xffff_ffff_ffff_ffff {
                    Some(FileSizeValue { bytes: total as u64 })
                } else {
                    None
                }
            },
            None => {
                proof {
                    assert(digits_value(input@.take(k as int)) * factor >= digits_value(
                        input@.take(k as int),
                    )) by (nonlinear_arith)
                        requires
                            factor >= 1,
                    ;
                }
                None
            },
        }
    }

    /// The text this file size is displayed as.
    pub fn to_text(&self) -> (r: String)
        ensures
            r@ == file_size_text(self.bytes as nat),
    {
        let b = self.bytes;
        let mut out = String::new();
        if b != 0 && b % 1_000_000_000_000 == 0 {
            push_decimal(&mut out, b / 1_000_000_000_000);
            push_char(&mut out, 'T');
            push_char(&mut out, 'B');
        } else if b != 0 && b % 0x100_0000_0000 == 0 {
            push_decimal(&mut out, b / 0x100_0000_0000);
            push_char(&mut out, 'T');
            push_char(&mut out, 'i');
            push_char(&mut out, 'B');
        } else if b != 0 && b % 1_000_000_000 == 0 {
            push_decimal(&mut out, b / 1_000_000_000);
            push_char(&mut out, 'G');
            push_char(&mut out, 'B');
        } else if b != 0 && b % 0x4000_0000 == 0 {
            push_decimal(&mut out, b / 0x4000_0000);
            push_char(&mut out, 'G');
            push_char(&mut out, 'i');
            push_char(&mut out, 'B');
        } else if b != 0 && b % 1_000_000 == 0 {
            push_decimal(&mut out, b / 1_000_000);
            push_char(&mut out, 'M');
            push_char(&mut out, 'B');
        } else if b != 0 && b % 0x10_0000 == 0 {
            push_decimal(&mut out, b / 0x10_0000);
            push_char(&mut out, 'M');
            push_char(&mut out, 'i');
            push_char(&mut out, 'B');
        } else if b != 0 && b % 1_000 == 0 {
            push_decimal(&mut out, b / 1_000);
            push_char(&mut out, 'K');
            push_char(&mut out, 'B');
        } else if b != 0 && b % 0x400 == 0 {
            push_decimal(&mut out, b / 0x400);
            push_char(&mut out, 'K');
            push_char(&mut out, 'i');
            push_char(&mut out, 'B');
        } else {
            push_decimal(&mut out, b);
            push_char(&mut out, 'B');
        }
        assert(out@ =~= file_size_text(b as nat));
        out
    }
}

} // verus!
