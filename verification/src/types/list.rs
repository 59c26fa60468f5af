use std::marker::PhantomData;

use vstd::prelude::*;

use crate::config_type::ConfigType;
use crate::error::{ConfigError, ConfigErrorView};
use crate::helpers::{
    csv_items, lemma_csv_items_of_join, lemma_string_vec_deep_view, normalize_list_value, normalized, parse_csv_list,
    same_strings,
};
use crate::optionality::{Optional, Required};
use crate::strings::{is_none_keyword, is_none_word, join, join_strings, owned, string_views, trim};
use crate::validator::{ConfigValidator, NoValidation};

verus! {

/// A comma-separated string list config value.
///
/// Serializes as a TOML array of strings (`key = ["a", "b"]`).
pub struct List<V = NoValidation, O = Required>(PhantomData<(V, O)>);

/// An independent copy of a list of strings.
pub fn copy_strings(v: &Vec<String>) -> (r: Vec<String>)
    ensures
        r.deep_view() == v.deep_view(),
        string_views(r@) == string_views(v@),
{
    let mut out: Vec<String> = Vec::new();
    let mut i: usize = 0;
    while i < v.len()
        invariant
            i <= v@.len(),
            out@.len() == i,
            forall|k: int| 0 <= k < i ==> #[trigger] out@[k]@ == v@[k]@,
        decreases v@.len() - i,
    {
        out.push(owned(v[i].as_str()));
        i = i + 1;
    }
    proof {
        assert(string_views(out@) =~= string_views(v@));
        lemma_string_vec_deep_view(out);
        lemma_string_vec_deep_view(*v);
    }
    out
}

/// An independent copy of an optional list of strings.
pub fn copy_optional_strings(v: &Option<Vec<String>>) -> (r: Option<Vec<String>>)
    ensures
        r.deep_view() == v.deep_view(),
{
    match v {
        Some(items) => Some(copy_strings(items)),
        None => None,
    }
}

/// How a list is displayed: `none` when it is empty, else its items joined by `, `.
pub open spec fn list_text(values: Seq<Seq<char>>) -> Seq<char> {
    if values.len() == 0 {
        "none"@
    } else {
        join(values, ", "@)
    }
}

/// The list text of a vector of strings.
pub fn list_to_string(values: &Vec<String>) -> (r: String)
    ensures
        r@ == list_text(values.deep_view()),
{
    proof {
        lemma_string_vec_deep_view(*values);
    }
    if values.len() == 0 {
        owned("none")
    } else {
        join_strings(values, ", ")
    }
}

/// The list that a comma-separated input stands for, or `None` for `none`.
pub open spec fn csv_value(input: Seq<char>) -> Option<Seq<Seq<char>>> {
    if is_none_word(input) {
        None
    } else {
        Some(csv_items(input))
    }
}

/// The message that refuses `none` for a required list.
pub open spec fn required_list_none_message() -> Seq<char> {
    "'none' is not valid for a required list field"@
}

impl<V: ConfigValidator<Option<Vec<String>>>> ConfigType for List<V, Required> {
    type Stored = Option<Vec<String>>;

    type Default = Vec<String>;

    type Value = Vec<String>;

    open spec fn spec_get(stored: Option<Seq<Seq<char>>>, default: Seq<Seq<char>>) -> Seq<
        Seq<char>,
    > {
        match stored {
            Some(v) => v,
            None => default,
        }
    }

    open spec fn spec_parse(input: Seq<char>, default: Seq<Seq<char>>) -> Result<
        Option<Seq<Seq<char>>>,
        Seq<char>,
    > {
        if is_none_word(input) {
            Err(required_list_none_message())
        } else {
            let values = csv_items(input);
            Ok(
                if values == default {
                    None
                } else {
                    Some(values)
                },
            )
        }
    }

    open spec fn spec_format(stored: Option<Seq<Seq<char>>>, default: Seq<Seq<char>>) -> Seq<
        char,
    > {
        list_text(Self::spec_get(stored, default))
    }

    open spec fn spec_stored_from_default(default: Seq<Seq<char>>) -> Option<Seq<Seq<char>>> {
        Some(default)
    }

    open spec fn spec_reset_value(default: Seq<Seq<char>>) -> Option<Seq<Seq<char>>> {
        None
    }

    open spec fn spec_validate(stored: Option<Seq<Seq<char>>>) -> Option<ConfigErrorView> {
        V::spec_check(stored)
    }

    open spec fn spec_fallback_default() -> Seq<Seq<char>> {
        Seq::empty()
    }

    proof fn lemma_reset_shows_default(default: Seq<Seq<char>>) {
    }

    fn get(stored: &Option<Vec<String>>, default: &Vec<String>) -> (r: Vec<String>) {
        match stored {
            Some(v) => copy_strings(v),
            None => copy_strings(default),
        }
    }

    fn parse(input: &str, default: &Vec<String>) -> (r: Result<Option<Vec<String>>, ConfigError>) {
        if is_none_keyword(input) {
            return Err(
                ConfigError::InvalidValue(owned("'none' is not valid for a required list field")),
            );
        }
        proof {
            lemma_string_vec_deep_view(*default);
        }
        Ok(normalize_list_value(parse_csv_list(input), default.as_slice()))
    }

    fn format(stored: &Option<Vec<String>>, default: &Vec<String>) -> (r: String) {
        match stored {
            Some(v) => list_to_string(v),
            None => list_to_string(default),
        }
    }

    fn stored_from_default(default: &Vec<String>) -> (r: Option<Vec<String>>) {
        Some(copy_strings(default))
    }

    fn validate(stored: &Option<Vec<String>>) -> (r: Result<(), ConfigError>) {
        V::validate(stored)
    }

    fn reset_value(default: &Vec<String>) -> (r: Option<Vec<String>>) {
        None
    }

    fn fallback_default() -> (r: Vec<String>) {
        let r: Vec<String> = Vec::new();
        assert(r.deep_view() =~= Seq::<Seq<char>>::empty());
        r
    }
}

impl<V: ConfigValidator<Option<Vec<String>>>> ConfigType for List<V, Optional> {
    type Stored = Option<Vec<String>>;

    type Default = Option<Vec<String>>;

    type Value = Option<Vec<String>>;

    open spec fn spec_get(stored: Option<Seq<Seq<char>>>, default: Option<Seq<Seq<char>>>) -> Option<
        Seq<Seq<char>>,
    > {
        match stored {
            Some(v) => Some(v),
            None => default,
        }
    }

    open spec fn spec_parse(input: Seq<char>, default: Option<Seq<Seq<char>>>) -> Result<
        Option<Seq<Seq<char>>>,
        Seq<char>,
    > {
        Ok(normalized(csv_value(input), default))
    }

    open spec fn spec_format(
        stored: Option<Seq<Seq<char>>>,
        default: Option<Seq<Seq<char>>>,
    ) -> Seq<char> {
        match Self::spec_get(stored, default) {
            Some(values) => list_text(values),
            None => "none"@,
        }
    }

    open spec fn spec_stored_from_default(default: Option<Seq<Seq<char>>>) -> Option<
        Seq<Seq<char>>,
    > {
        default
    }

    open spec fn spec_reset_value(default: Option<Seq<Seq<char>>>) -> Option<Seq<Seq<char>>> {
        None
    }

    open spec fn spec_validate(stored: Option<Seq<Seq<char>>>) -> Option<ConfigErrorView> {
        V::spec_check(stored)
    }

    open spec fn spec_fallback_default() -> Option<Seq<Seq<char>>> {
        None
    }

    proof fn lemma_reset_shows_default(default: Option<Seq<Seq<char>>>) {
    }

    fn get(stored: &Option<Vec<String>>, default: &Option<Vec<String>>) -> (r: Option<Vec<String>>) {
        match stored {
            Some(v) => Some(copy_strings(v)),
            None => copy_optional_strings(default),
        }
    }

    fn parse(input: &str, default: &Option<Vec<String>>) -> (r: Result<
        Option<Vec<String>>,
        ConfigError,
    >) {
        let parsed = parse_csv_list(input);
        let same = match (&parsed, default) {
            (Some(values), Some(default_values)) => {
                proof {
                    lemma_string_vec_deep_view(*values);
                    lemma_string_vec_deep_view(*default_values);
                }
                same_strings(values.as_slice(), default_values.as_slice())
            },
            _ => false,
        };
        if same {
            Ok(None)
        } else {
            Ok(parsed)
        }
    }

    fn format(stored: &Option<Vec<String>>, default: &Option<Vec<String>>) -> (r: String) {
        match stored {
            Some(v) => list_to_string(v),
            None => match default {
                Some(v) => list_to_string(v),
                None => owned("none"),
            },
        }
    }

    fn stored_from_default(default: &Option<Vec<String>>) -> (r: Option<Vec<String>>) {
        copy_optional_strings(default)
    }

    fn validate(stored: &Option<Vec<String>>) -> (r: Result<(), ConfigError>) {
        V::validate(stored)
    }

    fn reset_value(default: &Option<Vec<String>>) -> (r: Option<Vec<String>>) {
        None
    }

    fn fallback_default() -> (r: Option<Vec<String>>) {
        None
    }
}

/// Laws of `List` fields: `none` is refused by a required field and clears an optional one
/// back to its default; any other input is read back by the getter as its trimmed
/// comma-separated items, and is never stored when it equals the default.
pub proof fn lemma_list_reads_back<V: ConfigValidator<Option<Vec<String>>>>(
    input: Seq<char>,
    required_default: Seq<Seq<char>>,
    optional_default: Option<Seq<Seq<char>>>,
)
    ensures
        is_none_word(input) ==> List::<V, Required>::spec_parse(input, required_default) is Err,
        is_none_word(input) ==> (List::<V, Optional>::spec_parse(input, optional_default) matches Ok(
            st,
        ) && List::<V, Optional>::spec_get(st, optional_default) == optional_default),
        !is_none_word(input) ==> {
            &&& List::<V, Required>::spec_parse(input, required_default) matches Ok(st)
                && List::<V, Required>::spec_get(st, required_default) == csv_items(input) && st
                != Some(required_default)
            &&& List::<V, Optional>::spec_parse(input, optional_default) matches Ok(st)
                && List::<V, Optional>::spec_get(st, optional_default) == Some(csv_items(input))
                && st != optional_default
        },
{
}

/// Whether a list's display text, set again, can read back as the list: it has items, and
/// each is already trimmed and holds no comma.
pub open spec fn list_survives_text(values: Seq<Seq<char>>) -> bool {
    &&& values.len() > 0
    &&& forall|i: int|
        0 <= i < values.len() ==> !(#[trigger] values[i]).contains(',') && trim(values[i])
            == values[i]
}

/// Law of required `List` fields: the display text of the effective list, set again, reads
/// back as the same list, when the list has items, each already trimmed and free of commas,
/// and its text is not the word `none`.
pub proof fn lemma_required_list_format_parses_back<V: ConfigValidator<Option<Vec<String>>>>(
    stored: Option<Seq<Seq<char>>>,
    default: Seq<Seq<char>>,
)
    requires
        list_survives_text(List::<V, Required>::spec_get(stored, default)),
        !is_none_word(List::<V, Required>::spec_format(stored, default)),
    ensures
        List::<V, Required>::spec_parse(List::<V, Required>::spec_format(stored, default), default)
            matches Ok(st) && List::<V, Required>::spec_get(st, default) == List::<
            V,
            Required,
        >::spec_get(stored, default),
{
    lemma_csv_items_of_join(List::<V, Required>::spec_get(stored, default));
}

/// Law of optional `List` fields: the display text of the effective list, set again, reads
/// back as the same list, when the list has items, each already trimmed and free of commas,
/// and its text is not the word `none`.
pub proof fn lemma_optional_list_format_parses_back<V: ConfigValidator<Option<Vec<String>>>>(
    stored: Option<Seq<Seq<char>>>,
    default: Option<Seq<Seq<char>>>,
)
    requires
        List::<V, Optional>::spec_get(stored, default) matches Some(values) && list_survives_text(
            values,
        ),
        !is_none_word(List::<V, Optional>::spec_format(stored, default)),
    ensures
        List::<V, Optional>::spec_parse(List::<V, Optional>::spec_format(stored, default), default)
            matches Ok(st) && List::<V, Optional>::spec_get(st, default) == List::<
            V,
            Optional,
        >::spec_get(stored, default),
{
    lemma_csv_items_of_join(List::<V, Optional>::spec_get(stored, default)->Some_0);
}

} // verus!
