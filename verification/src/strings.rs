use vstd::prelude::*;
use vstd::string::*;

verus! {

// ---------------------------------------------------------------------------
// Character classes
// ---------------------------------------------------------------------------

/// Whether `c` is one of the characters that `char::is_whitespace` accepts
/// (the Unicode `White_Space` property).
pub open spec fn is_ws(c: char) -> bool {
    let v = c as u32;
    ||| 0x09 <= v <= 0x0D
    ||| v == 0x20
    ||| v == 0x85
    ||| v == 0xA0
    ||| v == 0x1680
    ||| 0x2000 <= v <= 0x200A
    ||| v == 0x2028
    ||| v == 0x2029
    ||| v == 0x202F
    ||| v == 0x205F
    ||| v == 0x3000
}

/// Whether `c` is white space (`char::is_whitespace`).
pub fn is_whitespace(c: char) -> (r: bool)
    ensures
        r == is_ws(c),
{
    let v = c as u32;
    (0x09 <= v && v <= 0x0D) || v == 0x20 || v == 0x85 || v == 0xA0 || v == 0x1680 || (0x2000
        <= v && v <= 0x200A) || v == 0x2028 || v == 0x2029 || v == 0x202F || v == 0x205F || v
        == 0x3000
}

/// The code of `c` after ASCII lower-casing (non-ASCII-uppercase characters keep their code).
pub open spec fn ascii_lower_code(c: char) -> int {
    let v = c as u32;
    if 65 <= v <= 90 {
        v + 32
    } else {
        v as int
    }
}

/// ASCII case-insensitive equality of two character sequences.
pub open spec fn eq_ignore_ascii_case(a: Seq<char>, b: Seq<char>) -> bool {
    &&& a.len() == b.len()
    &&& forall|i: int| 0 <= i < a.len() ==> ascii_lower_code(a[i]) == ascii_lower_code(b[i])
}

/// Whether `a` and `b` are the same character up to ASCII case.
pub fn char_eq_ignore_ascii_case(a: char, b: char) -> (r: bool)
    ensures
        r == (ascii_lower_code(a) == ascii_lower_code(b)),
{
    let va = a as u32;
    let vb = b as u32;
    let la = if 65 <= va && va <= 90 {
        va + 32
    } else {
        va
    };
    let lb = if 65 <= vb && vb <= 90 {
        vb + 32
    } else {
        vb
    };
    la == lb
}

/// `s` compared with `word` without regard to ASCII case.
pub fn str_eq_ignore_ascii_case(s: &str, word: &str) -> (r: bool)
    ensures
        r == eq_ignore_ascii_case(s@, word@),
{
    let n = s.unicode_len();
    let m = word.unicode_len();
    if n != m {
        return false;
    }
    let mut i: usize = 0;
    while i < n
        invariant
            n == s@.len(),
            m == word@.len(),
            n == m,
            i <= n,
            forall|k: int| 0 <= k < i ==> ascii_lower_code(s@[k]) == ascii_lower_code(word@[k]),
        decreases n - i,
    {
        if !char_eq_ignore_ascii_case(s.get_char(i), word.get_char(i)) {
            return false;
        }
        i = i + 1;
    }
    true
}

/// Whether `a` and `b` hold the same characters.
pub fn str_eq(a: &str, b: &str) -> (r: bool)
    ensures
        r == (a@ == b@),
{
    let n = a.unicode_len();
    let m = b.unicode_len();
    if n != m {
        return false;
    }
    let mut i: usize = 0;
    while i < n
        invariant
            n == a@.len(),
            m == b@.len(),
            n == m,
            i <= n,
            forall|k: int| 0 <= k < i ==> a@[k] == b@[k],
        decreases n - i,
    {
        if a.get_char(i) != b.get_char(i) {
            return false;
        }
        i = i + 1;
    }
    assert(a@ =~= b@);
    true
}

/// The word `none` that clears optional values.
pub open spec fn none_word() -> Seq<char> {
    seq!['n', 'o', 'n', 'e']
}

/// Whether `s` spells `none` in any ASCII case.
pub open spec fn is_none_word(s: Seq<char>) -> bool {
    eq_ignore_ascii_case(s, none_word())
}

/// Whether `input` spells `none` in any ASCII case.
pub fn is_none_keyword(input: &str) -> (r: bool)
    ensures
        r == is_none_word(input@),
{
    let n = input.unicode_len();
    if n != 4 {
        return false;
    }
    let c0 = input.get_char(0);
    let c1 = input.get_char(1);
    let c2 = input.get_char(2);
    let c3 = input.get_char(3);
    let r = char_eq_ignore_ascii_case(c0, 'n') && char_eq_ignore_ascii_case(c1, 'o')
        && char_eq_ignore_ascii_case(c2, 'n') && char_eq_ignore_ascii_case(c3, 'e');
    proof {
        let w = none_word();
        if r {
            assert forall|i: int| 0 <= i < input@.len() implies ascii_lower_code(input@[i])
                == ascii_lower_code(w[i]) by {
                if i == 0 {
                } else if i == 1 {
                } else if i == 2 {
                } else {
                }
            }
        } else {
            if eq_ignore_ascii_case(input@, w) {
                assert(ascii_lower_code(input@[0]) == ascii_lower_code(w[0]));
                assert(ascii_lower_code(input@[1]) == ascii_lower_code(w[1]));
                assert(ascii_lower_code(input@[2]) == ascii_lower_code(w[2]));
                assert(ascii_lower_code(input@[3]) == ascii_lower_code(w[3]));
            }
        }
    }
    r
}

// ---------------------------------------------------------------------------
// Trimming
// ---------------------------------------------------------------------------

/// `s` without its leading whitespace.
pub open spec fn trim_start(s: Seq<char>) -> Seq<char>
    decreases s.len(),
{
    if s.len() > 0 && is_ws(s[0]) {
        trim_start(s.drop_first())
    } else {
        s
    }
}

/// `s` without its trailing whitespace.
pub open spec fn trim_end(s: Seq<char>) -> Seq<char>
    decreases s.len(),
{
    if s.len() > 0 && is_ws(s.last()) {
        trim_end(s.drop_last())
    } else {
        s
    }
}

/// `s` without leading and trailing whitespace, as `str::trim` gives it.
pub open spec fn trim(s: Seq<char>) -> Seq<char> {
    trim_end(trim_start(s))
}

proof fn lemma_trim_start_skip(s: Seq<char>, i: int)
    requires
        0 <= i <= s.len(),
        forall|k: int| 0 <= k < i ==> is_ws(#[trigger] s[k]),
        i == s.len() || !is_ws(s[i]),
    ensures
        trim_start(s) == s.skip(i),
    decreases i,
{
    if i == 0 {
        assert(s.skip(0) =~= s);
    } else {
        let t = s.drop_first();
        assert forall|k: int| 0 <= k < i - 1 implies is_ws(#[trigger] t[k]) by {
            assert(t[k] == s[k + 1]);
        }
        if i - 1 < t.len() {
            assert(t[i - 1] == s[i]);
        }
        lemma_trim_start_skip(t, i - 1);
        assert(t.skip(i - 1) =~= s.skip(i));
    }
}

proof fn lemma_trim_end_take(s: Seq<char>, j: int)
    requires
        0 <= j <= s.len(),
        forall|k: int| j <= k < s.len() ==> is_ws(#[trigger] s[k]),
        j == 0 || !is_ws(s[j - 1]),
    ensures
        trim_end(s) == s.take(j),
    decreases s.len() - j,
{
    if j == s.len() {
        assert(s.take(j) =~= s);
        if s.len() > 0 {
            assert(s.last() == s[j - 1]);
        }
    } else {
        let t = s.drop_last();
        assert(is_ws(s.last()));
        assert forall|k: int| j <= k < t.len() implies is_ws(#[trigger] t[k]) by {
            assert(t[k] == s[k]);
        }
        if j > 0 {
            assert(t[j - 1] == s[j - 1]);
        }
        lemma_trim_end_take(t, j);
        assert(t.take(j) =~= s.take(j));
    }
}

/// A leading space makes no difference to trimming.
pub proof fn lemma_trim_space_prefix(e: Seq<char>)
    ensures
        trim(seq![' '] + e) == trim(e),
{
    let s = seq![' '] + e;
    assert(is_ws(s[0]));
    assert(s.drop_first() =~= e);
}

/// `s` without leading and trailing whitespace.
pub fn trim_str(s: &str) -> (r: &str)
    ensures
        r@ == trim(s@),
{
    let n = s.unicode_len();
    let mut i: usize = 0;
    while i < n && is_whitespace(s.get_char(i))
        invariant
            n == s@.len(),
            i <= n,
            forall|k: int| 0 <= k < i ==> is_ws(#[trigger] s@[k]),
        decreases n - i,
    {
        i = i + 1;
    }
    proof {
        lemma_trim_start_skip(s@, i as int);
    }
    let ghost t = s@.skip(i as int);
    let mut j: usize = n;
    while j > i && is_whitespace(s.get_char(j - 1))
        invariant
            n == s@.len(),
            i <= j <= n,
            t == s@.skip(i as int),
            forall|k: int| j <= k < n ==> is_ws(#[trigger] s@[k]),
        decreases j,
    {
        j = j - 1;
    }
    proof {
        assert forall|k: int| j - i <= k < t.len() implies is_ws(#[trigger] t[k]) by {
            assert(t[k] == s@[k + i]);
        }
        if j > i {
            assert(t[j - i - 1] == s@[j - 1]);
        }
        lemma_trim_end_take(t, j - i);
        assert(t.take(j - i) =~= s@.subrange(i as int, j as int));
    }
    s.substring_char(i, j)
}

// ---------------------------------------------------------------------------
// Splitting and joining
// ---------------------------------------------------------------------------

/// The pieces of `s` between occurrences of `sep`, as `str::split` yields them.
pub open spec fn split_on(s: Seq<char>, sep: char) -> Seq<Seq<char>>
    decreases s.len(),
{
    if s.len() == 0 {
        seq![Seq::<char>::empty()]
    } else {
        let prev = split_on(s.drop_last(), sep);
        if s.last() == sep {
            prev.push(Seq::<char>::empty())
        } else {
            prev.update(prev.len() - 1, prev.last().push(s.last()))
        }
    }
}

/// Splitting always gives at least one piece.
pub proof fn lemma_split_on_nonempty(s: Seq<char>, sep: char)
    ensures
        split_on(s, sep).len() >= 1,
    decreases s.len(),
{
    if s.len() > 0 {
        lemma_split_on_nonempty(s.drop_last(), sep);
    }
}

/// The views of a sequence of string slices.
pub open spec fn str_views(v: Seq<&str>) -> Seq<Seq<char>> {
    v.map_values(|x: &str| x@)
}

/// The pieces of `s` between occurrences of `sep`.
pub fn split_char<'a>(s: &'a str, sep: char) -> (r: Vec<&'a str>)
    ensures
        str_views(r@) == split_on(s@, sep),
{
    let n = s.unicode_len();
    let mut out: Vec<&'a str> = Vec::new();
    let mut start: usize = 0;
    let mut i: usize = 0;
    proof {
        assert(s@.take(0) =~= Seq::<char>::empty());
        assert(s@.subrange(0, 0) =~= Seq::<char>::empty());
        assert(str_views(out@) =~= Seq::<Seq<char>>::empty());
    }
    while i < n
        invariant
            n == s@.len(),
            start <= i <= n,
            str_views(out@).push(s@.subrange(start as int, i as int)) =~= split_on(
                s@.take(i as int),
                sep,
            ),
        decreases n - i,
    {
        let c = s.get_char(i);
        proof {
            let p = s@.take(i as int + 1);
            assert(p.drop_last() =~= s@.take(i as int));
            assert(p.last() == c);
            lemma_split_on_nonempty(s@.take(i as int), sep);
        }
        if c == sep {
            let piece = s.substring_char(start, i);
            out.push(piece);
            start = i + 1;
            proof {
                assert(str_views(out@) =~= str_views(out@.drop_last()).push(piece@));
                assert(s@.subrange(start as int, i as int + 1) =~= Seq::<char>::empty());
            }
        } else {
            proof {
                assert(s@.subrange(start as int, i as int + 1) =~= s@.subrange(
                    start as int,
                    i as int,
                ).push(c));
            }
        }
        i = i + 1;
    }
    let last = s.substring_char(start, n);
    out.push(last);
    proof {
        assert(s@.take(n as int) =~= s@);
        assert(str_views(out@) =~= str_views(out@.drop_last()).push(last@));
    }
    out
}

/// The pieces of `s` between commas.
pub fn split_commas<'a>(s: &'a str) -> (r: Vec<&'a str>)
    ensures
        str_views(r@) == split_on(s@, ','),
{
    split_char(s, ',')
}

/// `items` joined with `sep` between consecutive items, as `[String]::join` gives it.
pub open spec fn join(items: Seq<Seq<char>>, sep: Seq<char>) -> Seq<char>
    decreases items.len(),
{
    if items.len() == 0 {
        Seq::<char>::empty()
    } else if items.len() == 1 {
        items[0]
    } else {
        join(items.drop_last(), sep) + sep + items.last()
    }
}

/// Appending characters that hold no separator extends the last piece.
pub proof fn lemma_split_on_append(s: Seq<char>, e: Seq<char>, sep: char)
    requires
        !e.contains(sep),
    ensures
        split_on(s + e, sep) == split_on(s, sep).update(
            split_on(s, sep).len() - 1,
            split_on(s, sep).last() + e,
        ),
    decreases e.len(),
{
    lemma_split_on_nonempty(s, sep);
    let p = split_on(s, sep);
    if e.len() == 0 {
        assert(s + e =~= s);
        assert(p.last() + e =~= p.last());
        assert(p.update(p.len() - 1, p.last() + e) =~= p);
    } else {
        let e0 = e.drop_last();
        assert(!e0.contains(sep)) by {
            if e0.contains(sep) {
                let i = choose|i: int| 0 <= i < e0.len() && e0[i] == sep;
                assert(e[i] == sep);
            }
        }
        assert(e.last() != sep) by {
            assert(e[e.len() - 1] == e.last());
        }
        lemma_split_on_append(s, e0, sep);
        assert((s + e).drop_last() =~= s + e0);
        assert((s + e).last() == e.last());
        assert((p.last() + e0).push(e.last()) =~= p.last() + e);
        assert(split_on(s + e0, sep).update(p.len() - 1, (p.last() + e0).push(e.last()))
            =~= p.update(p.len() - 1, p.last() + e));
    }
}

/// Splitting items joined by `, ` at the commas gives the items back, each after the first
/// with the space before it, when no item holds a comma.
pub proof fn lemma_split_join_comma_space(items: Seq<Seq<char>>)
    requires
        items.len() > 0,
        forall|i: int| 0 <= i < items.len() ==> !(#[trigger] items[i]).contains(','),
    ensures
        split_on(join(items, ", "@), ',') == Seq::new(
            items.len(),
            |i: int|
                if i == 0 {
                    items[0]
                } else {
                    seq![' '] + items[i]
                },
        ),
    decreases items.len(),
{
    reveal_strlit(", ");
    let target = Seq::new(
        items.len(),
        |i: int|
            if i == 0 {
                items[0]
            } else {
                seq![' '] + items[i]
            },
    );
    if items.len() == 1 {
        let e = items[0];
        assert(!e.contains(','));
        lemma_split_on_append(Seq::<char>::empty(), e, ',');
        assert(Seq::<char>::empty() + e =~= e);
        assert(split_on(Seq::<char>::empty(), ',') == seq![Seq::<char>::empty()]);
        assert(seq![Seq::<char>::empty()].update(0, Seq::<char>::empty() + e) =~= target);
    } else {
        let init = items.drop_last();
        assert forall|i: int| 0 <= i < init.len() implies !(#[trigger] init[i]).contains(',') by {
            assert(init[i] == items[i]);
        }
        lemma_split_join_comma_space(init);
        let j = join(init, ", "@);
        let e = seq![' '] + items.last();
        assert(!e.contains(',')) by {
            assert(!items[items.len() - 1].contains(','));
            if e.contains(',') {
                let i = choose|i: int| 0 <= i < e.len() && e[i] == ',';
                assert(i > 0);
                assert(items.last()[i - 1] == ',');
            }
        }
        let jc = j.push(',');
        assert(join(items, ", "@) =~= jc + e);
        assert(jc.drop_last() =~= j);
        assert(split_on(jc, ',') == split_on(j, ',').push(Seq::<char>::empty()));
        lemma_split_on_append(jc, e, ',');
        let q = split_on(j, ',');
        assert(Seq::<char>::empty() + e =~= e);
        assert(q.push(Seq::<char>::empty()).update(q.len() as int, Seq::<char>::empty() + e)
            =~= target);
    }
}

/// The views of a sequence of strings.
pub open spec fn string_views(v: Seq<String>) -> Seq<Seq<char>> {
    v.map_values(|x: String| x@)
}

/// `items` joined with `sep` between consecutive items.
pub fn join_strings(items: &Vec<String>, sep: &str) -> (r: String)
    ensures
        r@ == join(string_views(items@), sep@),
{
    let mut out = String::new();
    let n = items.len();
    let mut i: usize = 0;
    while i < n
        invariant
            n == items@.len(),
            i <= n,
            out@ == join(string_views(items@).take(i as int), sep@),
        decreases n - i,
    {
        let ghost before = string_views(items@).take(i as int);
        let ghost after = string_views(items@).take(i as int + 1);
        proof {
            assert(after.drop_last() =~= before);
            assert(after.last() == items@[i as int]@);
        }
        if i > 0 {
            out.append(sep);
        } else {
            assert(before.len() == 0);
            assert(out@ =~= Seq::<char>::empty());
        }
        out.append(items[i].as_str());
        proof {
            if i == 0 {
                assert(out@ =~= after[0]);
            }
        }
        i = i + 1;
    }
    proof {
        assert(string_views(items@).take(n as int) =~= string_views(items@));
    }
    out
}

// ---------------------------------------------------------------------------
// Building strings
// ---------------------------------------------------------------------------

/// Appends one character to a string (`String::push`).
#[verifier::external_body]
pub fn push_char(s: &mut String, c: char)
    ensures
        final(s)@ == old(s)@.push(c),
{
    s.push(c);
}

/// The characters `str::to_lowercase` gives for a string.
pub uninterp spec fn lowercase_of(s: Seq<char>) -> Seq<char>;

/// The Unicode lower-case form of `s` (`str::to_lowercase`); its result is named
/// `lowercase_of`, which nothing here says more about.
#[verifier::external_body]
pub fn to_lowercase(s: &str) -> (r: String)
    ensures
        r@ == lowercase_of(s@),
{
    s.to_lowercase()
}

/// A fresh string holding the characters of `s`.
pub fn owned(s: &str) -> (r: String)
    ensures
        r@ == s@,
{
    String::from_str(s)
}

/// A fresh string holding `a` followed by `b`.
pub fn concat2(a: &str, b: &str) -> (r: String)
    ensures
        r@ == a@ + b@,
{
    let mut s = String::from_str(a);
    s.append(b);
    s
}

/// A fresh string holding `a`, `b` and `c` in order.
pub fn concat3(a: &str, b: &str, c: &str) -> (r: String)
    ensures
        r@ == a@ + b@ + c@,
{
    let mut s = String::from_str(a);
    s.append(b);
    s.append(c);
    s
}

// ---------------------------------------------------------------------------
// Decimal numbers
// ---------------------------------------------------------------------------

/// The decimal digit character for `d`.
pub open spec fn digit_char(d: int) -> char {
    if d == 0 {
        '0'
    } else if d == 1 {
        '1'
    } else if d == 2 {
        '2'
    } else if d == 3 {
        '3'
    } else if d == 4 {
        '4'
    } else if d == 5 {
        '5'
    } else if d == 6 {
        '6'
    } else if d == 7 {
        '7'
    } else if d == 8 {
        '8'
    } else {
        '9'
    }
}

/// The decimal digits of `n`, without leading zeros.
pub open spec fn decimal(n: nat) -> Seq<char>
    decreases n,
{
    if n < 10 {
        seq![digit_char(n as int)]
    } else {
        decimal(n / 10).push(digit_char((n % 10) as int))
    }
}

/// `v` written in decimal, with a leading `-` when it is negative (`Display` of integers).
pub open spec fn int_text(v: int) -> Seq<char> {
    if v < 0 {
        seq!['-'] + decimal((-v) as nat)
    } else {
        decimal(v as nat)
    }
}

fn digit_of(d: u64) -> (c: char)
    requires
        d < 10,
    ensures
        c == digit_char(d as int),
{
    if d == 0 {
        '0'
    } else if d == 1 {
        '1'
    } else if d == 2 {
        '2'
    } else if d == 3 {
        '3'
    } else if d == 4 {
        '4'
    } else if d == 5 {
        '5'
    } else if d == 6 {
        '6'
    } else if d == 7 {
        '7'
    } else if d == 8 {
        '8'
    } else {
        '9'
    }
}

/// Appends the decimal digits of `n` to `out`.
pub fn push_decimal(out: &mut String, n: u64)
    ensures
        final(out)@ == old(out)@ + decimal(n as nat),
    decreases n,
{
    if n >= 10 {
        push_decimal(out, n / 10);
    }
    push_char(out, digit_of(n % 10));
}

/// `v` written in decimal (`i128::to_string`, restricted to the range of the integer types here).
pub fn int_to_string(v: i128) -> (r: String)
    requires
        -0x1_0000_0000_0000_0000 < v < 0x1_0000_0000_0000_0000,
    ensures
        r@ == int_text(v as int),
{
    let mut out = String::new();
    if v < 0 {
        push_char(&mut out, '-');
        let m = (0 - v) as u64;
        push_decimal(&mut out, m);
    } else {
        push_decimal(&mut out, v as u64);
    }
    out
}

/// Whether `c` is an ASCII decimal digit.
pub open spec fn is_digit(c: char) -> bool {
    '0' <= c <= '9'
}

/// The value of the decimal digit `c`.
pub open spec fn digit_value(c: char) -> int {
    (c as u32) - ('0' as u32)
}

/// Whether every character of `s` is a decimal digit.
pub open spec fn all_digits(s: Seq<char>) -> bool {
    forall|i: int| 0 <= i < s.len() ==> is_digit(#[trigger] s[i])
}

/// The value of a string of decimal digits.
pub open spec fn digits_value(s: Seq<char>) -> nat
    decreases s.len(),
{
    if s.len() == 0 {
        0
    } else {
        (digits_value(s.drop_last()) * 10 + digit_value(s.last())) as nat
    }
}

/// The integer that `str::parse` reads from `s` before its range is checked: an optional
/// `+` (or `-` where `signed`) followed by one or more decimal digits, nothing else.
pub open spec fn integer_syntax(s: Seq<char>, signed: bool) -> Option<int> {
    if s.len() == 0 {
        None
    } else if s[0] == '+' || (signed && s[0] == '-') {
        let d = s.drop_first();
        if d.len() > 0 && all_digits(d) {
            if s[0] == '-' {
                Some(-(digits_value(d) as int))
            } else {
                Some(digits_value(d) as int)
            }
        } else {
            None
        }
    } else if all_digits(s) {
        Some(digits_value(s) as int)
    } else {
        None
    }
}

/// The integer that `str::parse` gives for `s` in the type whose range is `lo..=hi`.
pub open spec fn parse_integer_spec(s: Seq<char>, signed: bool, lo: int, hi: int) -> Option<int> {
    match integer_syntax(s, signed) {
        Some(v) => if lo <= v <= hi {
            Some(v)
        } else {
            None
        },
        None => None,
    }
}

proof fn lemma_digits_value_grows(s: Seq<char>, i: int)
    requires
        0 <= i <= s.len(),
        all_digits(s),
    ensures
        digits_value(s.take(i)) <= digits_value(s),
    decreases s.len() - i,
{
    if i < s.len() {
        lemma_digits_value_grows(s, i + 1);
        let p = s.take(i + 1);
        assert(p.drop_last() =~= s.take(i));
        assert(is_digit(s[i]));
    } else {
        assert(s.take(i) =~= s);
    }
}

/// Reads an integer in the range `lo..=hi` from `s` as `str::parse` does.
pub fn parse_integer(s: &str, signed: bool, lo: i128, hi: i128) -> (r: Option<i128>)
    requires
        -0x1_0000_0000_0000_0000 <= lo <= hi <= 0x1_0000_0000_0000_0000,
    ensures
        r matches Some(v) ==> parse_integer_spec(s@, signed, lo as int, hi as int) == Some(
            v as int,
        ),
        r is None ==> parse_integer_spec(s@, signed, lo as int, hi as int) is None,
{
    let n = s.unicode_len();
    if n == 0 {
        return None;
    }
    let c0 = s.get_char(0);
    let has_sign = c0 == '+' || (signed && c0 == '-');
    let negative = c0 == '-';
    let start: usize = if has_sign {
        1
    } else {
        0
    };
    if start == n {
        return None;
    }
    let ghost d = s@.skip(start as int);
    proof {
        if has_sign {
            assert(s@.drop_first() =~= d);
        } else {
            assert(s@ =~= d);
        }
    }
    let cap: i128 = 0x1_0000_0000_0000_0000;
    let mut acc: i128 = 0;
    let mut i: usize = start;
    while i < n
        invariant
            n == s@.len(),
            start <= i <= n,
            start < n,
            start == (if has_sign { 1usize } else { 0usize }),
            has_sign == (s@[0] == '+' || (signed && s@[0] == '-')),
            negative == (s@[0] == '-'),
            -0x1_0000_0000_0000_0000 <= lo <= hi <= 0x1_0000_0000_0000_0000,
            has_sign ==> s@.drop_first() == d,
            !has_sign ==> s@ == d,
            d == s@.skip(start as int),
            cap == 0x1_0000_0000_0000_0000,
            0 <= acc <= cap,
            all_digits(d.take(i - start)),
            acc == digits_value(d.take(i - start)),
        decreases n - i,
    {
        let c = s.get_char(i);
        if !('0' <= c && c <= '9') {
            proof {
                assert(d[i - start] == c);
                assert(!all_digits(d));
                if has_sign {
                    assert(s@.drop_first() =~= d);
                } else {
                    assert(d =~= s@);
                    assert(!all_digits(s@));
                }
            }
            return None;
        }
        let dv = (c as u32 - '0' as u32) as i128;
        let ghost before = d.take(i - start);
        let ghost after = d.take(i - start + 1);
        proof {
            assert(after.drop_last() =~= before);
            assert(after.last() == c);
            assert(all_digits(after)) by {
                assert forall|k: int| 0 <= k < after.len() implies is_digit(#[trigger] after[k]) by {
                    if k < before.len() {
                        assert(after[k] == before[k]);
                    }
                }
            }
        }
        acc = acc * 10 + dv;
        i = i + 1;
        if acc > cap {
            proof {
                if all_digits(d) {
                    lemma_digits_value_grows(d, i - start);
                    if has_sign {
                        assert(s@.drop_first() =~= d);
                    } else {
                        assert(d =~= s@);
                    }
                } else {
                    if has_sign {
                        assert(s@.drop_first() =~= d);
                    } else {
                        assert(d =~= s@);
                    }
                }
            }
            return None;
        }
    }
    proof {
        assert(d.take(n - start) =~= d);
        if has_sign {
            assert(s@.drop_first() =~= d);
        } else {
            assert(d =~= s@);
        }
    }
    let v = if has_sign && negative {
        -acc
    } else {
        acc
    };
    if lo <= v && v <= hi {
        Some(v)
    } else {
        None
    }
}


/// The decimal digits of a number read back give the number.
pub proof fn lemma_decimal_digits(n: nat)
    ensures
        decimal(n).len() > 0,
        all_digits(decimal(n)),
        digits_value(decimal(n)) == n,
    decreases n,
{
    if n < 10 {
        let s = decimal(n);
        assert(s.drop_last() =~= Seq::<char>::empty());
        assert(digit_value(digit_char(n as int)) == n);
        assert(digits_value(Seq::<char>::empty()) == 0);
        assert(digits_value(s) == digits_value(s.drop_last()) * 10 + digit_value(s.last()));
        assert(digits_value(s) == n);
    } else {
        lemma_decimal_digits(n / 10);
        let s = decimal(n);
        assert(s.drop_last() =~= decimal(n / 10));
        assert(digit_value(digit_char((n % 10) as int)) == n % 10);
        assert forall|i: int| 0 <= i < s.len() implies is_digit(#[trigger] s[i]) by {
            if i < s.len() - 1 {
                assert(s[i] == decimal(n / 10)[i]);
            }
        }
        vstd::arithmetic::div_mod::lemma_fundamental_div_mod(n as int, 10);
        assert(s.last() == digit_char((n % 10) as int));
        assert(digits_value(s) == digits_value(decimal(n / 10)) * 10 + digit_value(s.last()));
        assert(digits_value(s) == n);
    }
}

/// An integer's decimal text reads back as the same integer in any type whose range holds it.
pub proof fn lemma_int_text_parses_back(v: int, signed: bool, lo: int, hi: int)
    requires
        lo <= v <= hi,
        v < 0 ==> signed,
    ensures
        parse_integer_spec(int_text(v), signed, lo, hi) == Some(v),
{
    if v < 0 {
        let d = decimal((-v) as nat);
        lemma_decimal_digits((-v) as nat);
        let s = seq!['-'] + d;
        assert(s.drop_first() =~= d);
        assert(s[0] == '-');
    } else {
        let d = decimal(v as nat);
        lemma_decimal_digits(v as nat);
        assert(is_digit(d[0]));
    }
}

/// An integer's decimal text is not the word `none`.
pub proof fn lemma_int_text_not_none(v: int)
    ensures
        !is_none_word(int_text(v)),
{
    let t = int_text(v);
    if v < 0 {
        assert(t[0] == '-');
    } else {
        lemma_decimal_digits(v as nat);
        assert(is_digit(t[0]));
    }
    assert(ascii_lower_code(none_word()[0]) == 110);
}

/// The number of decimal digits at the start of `s`.
pub open spec fn leading_digits(s: Seq<char>) -> nat
    decreases s.len(),
{
    if s.len() > 0 && is_digit(s[0]) {
        1 + leading_digits(s.drop_first())
    } else {
        0
    }
}

/// The leading digits of `s` are the longest run of digits it starts with.
pub proof fn lemma_leading_digits(s: Seq<char>)
    ensures
        leading_digits(s) <= s.len(),
        all_digits(s.take(leading_digits(s) as int)),
        leading_digits(s) < s.len() ==> !is_digit(s[leading_digits(s) as int]),
    decreases s.len(),
{
    if s.len() > 0 && is_digit(s[0]) {
        let t = s.drop_first();
        lemma_leading_digits(t);
        let k = leading_digits(s) as int;
        assert forall|i: int| 0 <= i < k implies is_digit(#[trigger] s.take(k)[i]) by {
            if i > 0 {
                assert(s.take(k)[i] == t.take(k - 1)[i - 1]);
            }
        }
        if k < s.len() {
            assert(s[k] == t[k - 1]);
        }
    } else {
        assert(s.take(0) =~= Seq::<char>::empty());
    }
}

/// `digits` followed by a text that does not start with a digit has exactly those digits
/// in front.
pub proof fn lemma_leading_digits_of_concat(digits: Seq<char>, rest: Seq<char>)
    requires
        all_digits(digits),
        rest.len() == 0 || !is_digit(rest[0]),
    ensures
        leading_digits(digits + rest) == digits.len(),
        (digits + rest).take(digits.len() as int) == digits,
        (digits + rest).skip(digits.len() as int) == rest,
    decreases digits.len(),
{
    let s = digits + rest;
    if digits.len() == 0 {
        assert(s =~= rest);
    } else {
        assert(s.drop_first() =~= digits.drop_first() + rest);
        assert(is_digit(digits[0]));
        assert(all_digits(digits.drop_first())) by {
            assert forall|i: int| 0 <= i < digits.drop_first().len() implies is_digit(
                #[trigger] digits.drop_first()[i],
            ) by {
                assert(digits.drop_first()[i] == digits[i + 1]);
            }
        }
        lemma_leading_digits_of_concat(digits.drop_first(), rest);
    }
    assert(s.take(digits.len() as int) =~= digits);
    assert(s.skip(digits.len() as int) =~= rest);
}

/// Counts the digits at the start of `s` and reads their value, which is `None` when it
/// exceeds `u64::MAX`.
pub fn read_leading_digits(s: &str) -> (r: (usize, Option<u64>))
    ensures
        r.0 == leading_digits(s@),
        r.1 matches Some(v) ==> v == digits_value(s@.take(r.0 as int)),
        r.1 is None ==> digits_value(s@.take(r.0 as int)) > u64::MAX,
{
    proof {
        lemma_leading_digits(s@);
    }
    let n = s.unicode_len();
    let ghost k = leading_digits(s@) as int;
    let mut i: usize = 0;
    let mut acc: u128 = 0;
    let mut big = false;
    proof {
        assert(s@.take(0) =~= Seq::<char>::empty());
    }
    while i < n && '0' <= s.get_char(i) && s.get_char(i) <= '9'
        invariant
            n == s@.len(),
            k == leading_digits(s@),
            k <= n,
            all_digits(s@.take(k)),
            k < n ==> !is_digit(s@[k]),
            i <= k,
            !big ==> acc == digits_value(s@.take(i as int)) && acc <= u64::MAX,
            big ==> digits_value(s@.take(i as int)) > u64::MAX,
        decreases n - i,
    {
        let c = s.get_char(i);
        let ghost before = s@.take(i as int);
        let ghost after = s@.take(i as int + 1);
        proof {
            assert(after.drop_last() =~= before);
            assert(after.last() == c);
            if i == k {
                assert(false);
            }
        }
        if !big {
            acc = acc * 10 + (c as u32 - '0' as u32) as u128;
            if acc > 0xffff_ffff_ffff_ffff {
                big = true;
            }
        }
        i = i + 1;
    }
    proof {
        if i < k {
            assert(s@.take(k)[i as int] == s@[i as int]);
        }
        assert(i == k);
    }
    if big {
        (i, None)
    } else {
        (i, Some(acc as u64))
    }
}


// ---------------------------------------------------------------------------
// Lines and replacing
// ---------------------------------------------------------------------------

/// A line without the carriage return that ended it.
pub open spec fn strip_cr(p: Seq<char>) -> Seq<char> {
    if p.len() > 0 && p.last() == '\r' {
        p.drop_last()
    } else {
        p
    }
}

/// The lines of `s`, as `str::lines` yields them: split at each `\n`, a `\r` before a `\n`
/// removed, and no line after a final `\n`.
pub open spec fn lines_of(s: Seq<char>) -> Seq<Seq<char>> {
    let pieces = split_on(s, '\n');
    let n = pieces.len();
    Seq::new((n - 1) as nat, |i: int| strip_cr(pieces[i])) + if pieces[n - 1].len() == 0 {
        Seq::<Seq<char>>::empty()
    } else {
        seq![pieces[n - 1]]
    }
}

/// The lines of `s`.
pub fn lines<'a>(s: &'a str) -> (r: Vec<&'a str>)
    ensures
        str_views(r@) == lines_of(s@),
{
    let pieces = split_char(s, '\n');
    proof {
        lemma_split_on_nonempty(s@, '\n');
    }
    let n = pieces.len();
    let ghost views = str_views(pieces@);
    let mut out: Vec<&'a str> = Vec::new();
    let mut i: usize = 0;
    while i + 1 < n
        invariant
            views == str_views(pieces@),
            views == split_on(s@, '\n'),
            n == pieces@.len(),
            n >= 1,
            i <= n - 1,
            str_views(out@) =~= Seq::new(i as nat, |j: int| strip_cr(views[j])),
        decreases n - i,
    {
        let p = pieces[i];
        let len = p.unicode_len();
        let line = if len > 0 && p.get_char(len - 1) == '\r' {
            p.substring_char(0, len - 1)
        } else {
            p
        };
        proof {
            if len > 0 && p@.last() == '\r' {
                assert(line@ =~= p@.drop_last());
            }
            assert(views[i as int] == p@);
        }
        let ghost before = str_views(out@);
        out.push(line);
        proof {
            assert(str_views(out@) =~= before.push(line@));
        }
        i = i + 1;
    }
    let last = pieces[n - 1];
    proof {
        assert(views[n - 1] == last@);
    }
    if last.unicode_len() > 0 {
        let ghost before = str_views(out@);
        out.push(last);
        proof {
            assert(str_views(out@) =~= before.push(last@));
        }
    }
    proof {
        assert(str_views(out@) =~= lines_of(s@));
    }
    out
}

/// `items` from position `start` on, at most `count` of them.
pub open spec fn window<A>(items: Seq<A>, start: int, count: int) -> Seq<A> {
    let from = if start < items.len() {
        start
    } else {
        items.len() as int
    };
    let to = if from + count < items.len() {
        from + count
    } else {
        items.len() as int
    };
    items.subrange(from, to)
}

/// `s` with every occurrence of `pat` replaced by `rep`, scanning from the left without
/// overlaps, as `str::replace` does.
pub open spec fn replace_all(s: Seq<char>, pat: Seq<char>, rep: Seq<char>) -> Seq<char>
    recommends
        pat.len() > 0,
    decreases s.len(),
{
    if s.len() == 0 || pat.len() == 0 {
        s
    } else if s.len() >= pat.len() && s.take(pat.len() as int) == pat {
        rep + replace_all(s.skip(pat.len() as int), pat, rep)
    } else {
        seq![s[0]] + replace_all(s.drop_first(), pat, rep)
    }
}

/// `s` with every occurrence of `pat` replaced by `rep` (`str::replace`).
pub fn replace(s: &str, pat: &str, rep: &str) -> (r: String)
    requires
        pat@.len() > 0,
    ensures
        r@ == replace_all(s@, pat@, rep@),
{
    let n = s.unicode_len();
    let m = pat.unicode_len();
    let mut out = String::new();
    let mut i: usize = 0;
    proof {
        assert(s@.skip(0) =~= s@);
    }
    while i < n
        invariant
            n == s@.len(),
            m == pat@.len(),
            m > 0,
            i <= n,
            out@ + replace_all(s@.skip(i as int), pat@, rep@) == replace_all(s@, pat@, rep@),
        decreases n - i,
    {
        let ghost rest = s@.skip(i as int);
        if m <= n - i && str_eq(s.substring_char(i, i + m), pat) {
            proof {
                assert(rest.take(m as int) =~= s@.subrange(i as int, i + m));
                assert(rest.skip(m as int) =~= s@.skip(i + m));
                assert(out@ + rep@ + replace_all(s@.skip(i + m), pat@, rep@) == out@ + (rep@
                    + replace_all(s@.skip(i + m), pat@, rep@)));
            }
            out.append(rep);
            i = i + m;
        } else {
            let c = s.get_char(i);
            proof {
                if i + m <= n {
                    assert(rest.take(m as int) =~= s@.subrange(i as int, i + m));
                }
                assert(rest.drop_first() =~= s@.skip(i + 1));
                assert(rest[0] == c);
                assert(out@.push(c) + replace_all(s@.skip(i + 1), pat@, rep@) =~= out@ + (seq![c]
                    + replace_all(s@.skip(i + 1), pat@, rep@)));
            }
            push_char(&mut out, c);
            i = i + 1;
        }
    }
    proof {
        assert(s@.skip(n as int) =~= Seq::<char>::empty());
        assert(out@ + Seq::<char>::empty() =~= out@);
    }
    out
}

} // verus!
