use vstd::prelude::*;

use crate::error::ConfigError;
use crate::strings::{
    is_none_keyword, is_none_word, join, lemma_split_join_comma_space, lemma_trim_space_prefix, owned,
    split_commas, split_on, str_views, string_views, trim, trim_str,
};

verus! {

/// Equality that agrees with equality of deep views.
pub trait ViewEq: DeepView + Sized {
    fn view_eq(&self, other: &Self) -> (r: bool)
        ensures
            r == (self.deep_view() == other.deep_view()),
    ;
}

impl ViewEq for String {
    fn view_eq(&self, other: &Self) -> (r: bool) {
        *self == *other
    }
}

impl ViewEq for bool {
    fn view_eq(&self, other: &Self) -> (r: bool) {
        *self == *other
    }
}

impl ViewEq for u8 {
    fn view_eq(&self, other: &Self) -> (r: bool) {
        *self == *other
    }
}

impl ViewEq for u16 {
    fn view_eq(&self, other: &Self) -> (r: bool) {
        *self == *other
    }
}

impl ViewEq for u32 {
    fn view_eq(&self, other: &Self) -> (r: bool) {
        *self == *other
    }
}

impl ViewEq for u64 {
    fn view_eq(&self, other: &Self) -> (r: bool) {
        *self == *other
    }
}

impl ViewEq for i8 {
    fn view_eq(&self, other: &Self) -> (r: bool) {
        *self == *other
    }
}

impl ViewEq for i16 {
    fn view_eq(&self, other: &Self) -> (r: bool) {
        *self == *other
    }
}

impl ViewEq for i32 {
    fn view_eq(&self, other: &Self) -> (r: bool) {
        *self == *other
    }
}

impl ViewEq for i64 {
    fn view_eq(&self, other: &Self) -> (r: bool) {
        *self == *other
    }
}

/// `parsed`, or `None` when it equals `default`.
pub open spec fn normalized<A>(parsed: Option<A>, default: Option<A>) -> Option<A> {
    if parsed == default {
        None
    } else {
        parsed
    }
}

/// Parse a string as an optional value, treating `"none"` (case-insensitive) as `None`.
pub fn parse_optional_value<T, F>(input: &str, parse_value: F) -> (r: Result<Option<T>, ConfigError>) where
    F: FnOnce(&str) -> Result<T, ConfigError>,

    requires
        !is_none_word(input@) ==> call_requires(parse_value, (input,)),
    ensures
        is_none_word(input@) ==> r matches Ok(None),
        !is_none_word(input@) ==> match r {
            Ok(Some(v)) => call_ensures(parse_value, (input,), Ok(v)),
            Ok(None) => false,
            Err(e) => call_ensures(parse_value, (input,), Err(e)),
        },
{
    if is_none_keyword(input) {
        Ok(None)
    } else {
        match parse_value(input) {
            Ok(v) => Ok(Some(v)),
            Err(e) => Err(e),
        }
    }
}

/// Collapse an explicit value that matches the default back to `None`.
///
/// This keeps the serialized TOML clean — values equal to the default are
/// omitted rather than stored redundantly.
pub fn normalize_optional_value<T: ViewEq>(parsed: Option<T>, default: Option<T>) -> (r: Option<T>)
    ensures
        r.deep_view() == normalized(parsed.deep_view(), default.deep_view()),
{
    let same = match (&parsed, &default) {
        (Some(a), Some(b)) => a.view_eq(b),
        (None, None) => true,
        _ => false,
    };
    if same {
        None
    } else {
        parsed
    }
}

/// Whether two lists of strings hold the same texts in the same order.
pub fn same_strings(a: &[String], b: &[String]) -> (r: bool)
    ensures
        r == (string_views(a@) == string_views(b@)),
{
    if a.len() != b.len() {
        proof {
            assert(string_views(a@).len() != string_views(b@).len());
        }
        return false;
    }
    let mut i: usize = 0;
    while i < a.len()
        invariant
            a@.len() == b@.len(),
            i <= a@.len(),
            forall|k: int| 0 <= k < i ==> a@[k]@ == b@[k]@,
        decreases a@.len() - i,
    {
        if !(a[i] == b[i]) {
            proof {
                assert(string_views(a@)[i as int] != string_views(b@)[i as int]);
            }
            return false;
        }
        i = i + 1;
    }
    proof {
        assert(string_views(a@) =~= string_views(b@));
    }
    true
}

/// The deep view of a vector of strings is the sequence of their texts.
pub proof fn lemma_string_vec_deep_view(v: Vec<String>)
    ensures
        v.deep_view() == string_views(v@),
{
    assert(v.deep_view() =~= string_views(v@));
}

/// Collapse a parsed list back to `None` when it matches the default list.
pub fn normalize_list_value(parsed: Option<Vec<String>>, default: &[String]) -> (r: Option<
    Vec<String>,
>)
    ensures
        r.deep_view() == (match parsed.deep_view() {
            Some(values) => if values == string_views(default@) {
                None
            } else {
                Some(values)
            },
            None => None,
        }),
{
    proof {
        if let Some(values) = &parsed {
            lemma_string_vec_deep_view(*values);
        }
    }
    let same = match &parsed {
        Some(values) => same_strings(values.as_slice(), default),
        None => false,
    };
    if same {
        None
    } else {
        parsed
    }
}

/// The trimmed comma-separated items of `s`.
pub open spec fn csv_items(s: Seq<char>) -> Seq<Seq<char>> {
    split_on(s, ',').map_values(|p: Seq<char>| trim(p))
}

/// Items joined by `, ` read back as the same items, when each is already trimmed and
/// holds no comma.
pub proof fn lemma_csv_items_of_join(items: Seq<Seq<char>>)
    requires
        items.len() > 0,
        forall|i: int|
            0 <= i < items.len() ==> !(#[trigger] items[i]).contains(',') && trim(items[i])
                == items[i],
    ensures
        csv_items(join(items, ", "@)) == items,
{
    lemma_split_join_comma_space(items);
    let pieces = split_on(join(items, ", "@), ',');
    assert forall|i: int| 0 <= i < items.len() implies #[trigger] csv_items(join(items, ", "@))[i]
        == items[i] by {
        if i > 0 {
            lemma_trim_space_prefix(items[i]);
            assert(pieces[i] == seq![' '] + items[i]);
        }
    }
    assert(csv_items(join(items, ", "@)) =~= items);
}

/// The trimmed comma-separated pieces of `input`, as owned strings.
pub fn csv_strings(input: &str) -> (r: Vec<String>)
    ensures
        string_views(r@) == csv_items(input@),
        r.deep_view() == csv_items(input@),
{
    let pieces = split_commas(input);
    let mut out: Vec<String> = Vec::new();
    let mut i: usize = 0;
    while i < pieces.len()
        invariant
            str_views(pieces@) == split_on(input@, ','),
            i <= pieces@.len(),
            out@.len() == i,
            forall|k: int| 0 <= k < i ==> #[trigger] out@[k]@ == trim(pieces@[k]@),
        decreases pieces@.len() - i,
    {
        let t = trim_str(pieces[i]);
        out.push(owned(t));
        i = i + 1;
    }
    proof {
        assert(string_views(out@) =~= csv_items(input@)) by {
            assert forall|k: int| 0 <= k < out@.len() implies string_views(out@)[k] == csv_items(
                input@,
            )[k] by {
                assert(str_views(pieces@)[k] == pieces@[k]@);
            }
        }
        lemma_string_vec_deep_view(out);
    }
    out
}

/// Parse a comma-separated list from a string.
pub fn parse_csv_list(input: &str) -> (r: Option<Vec<String>>)
    ensures
        is_none_word(input@) ==> r is None,
        !is_none_word(input@) ==> (r matches Some(v) && string_views(v@) == csv_items(input@)),
        r.deep_view() == (if is_none_word(input@) {
            None
        } else {
            Some(csv_items(input@))
        }),
{
    if is_none_keyword(input) {
        None
    } else {
        Some(csv_strings(input))
    }
}

} // verus!
