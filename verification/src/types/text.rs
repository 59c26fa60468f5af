use std::marker::PhantomData;

use vstd::prelude::*;

use crate::config_type::ConfigType;
use crate::error::{ConfigError, ConfigErrorView};
use crate::helpers::{normalize_optional_value, normalized, parse_optional_value};
use crate::optionality::{Optional, Required};
use crate::strings::{is_none_word, owned};
use crate::validator::{ConfigValidator, NoValidation};

verus! {

/// A text (string) config value.
///
/// # Required (default)
/// Always has a value — falls back to the default string when absent.
///
/// # Optional (`Text<V, Optional>`)
/// May be absent — getter returns `Option<String>`.
pub struct Text<V = NoValidation, O = Required>(PhantomData<(V, O)>);

/// Copies an optional string.
pub fn copy_optional_string(s: &Option<String>) -> (r: Option<String>)
    ensures
        r.deep_view() == s.deep_view(),
{
    match s {
        Some(v) => Some(owned(v.as_str())),
        None => None,
    }
}

impl<V: ConfigValidator<Option<String>>> ConfigType for Text<V, Required> {
    type Stored = Option<String>;

    type Default = String;

    type Value = String;

    open spec fn spec_get(stored: Option<Seq<char>>, default: Seq<char>) -> Seq<char> {
        match stored {
            Some(s) => s,
            None => default,
        }
    }

    open spec fn spec_parse(input: Seq<char>, default: Seq<char>) -> Result<
        Option<Seq<char>>,
        Seq<char>,
    > {
        if is_none_word(input) {
            Err("'none' is not valid for a required text field"@)
        } else {
            Ok(normalized(Some(input), Some(default)))
        }
    }

    open spec fn spec_format(stored: Option<Seq<char>>, default: Seq<char>) -> Seq<char> {
        match stored {
            Some(s) => s,
            None => default,
        }
    }

    open spec fn spec_stored_from_default(default: Seq<char>) -> Option<Seq<char>> {
        Some(default)
    }

    open spec fn spec_reset_value(default: Seq<char>) -> Option<Seq<char>> {
        None
    }

    open spec fn spec_validate(stored: Option<Seq<char>>) -> Option<ConfigErrorView> {
        V::spec_check(stored)
    }

    open spec fn spec_fallback_default() -> Seq<char> {
        Seq::empty()
    }

    proof fn lemma_reset_shows_default(default: Seq<char>) {
    }

    fn get(stored: &Option<String>, default: &String) -> (r: String) {
        match stored {
            Some(s) => owned(s.as_str()),
            None => owned(default.as_str()),
        }
    }

    fn parse(input: &str, default: &String) -> (r: Result<Option<String>, ConfigError>) {
        if crate::strings::is_none_keyword(input) {
            return Err(
                ConfigError::InvalidValue(owned("'none' is not valid for a required text field")),
            );
        }
        let parsed = Some(owned(input));
        Ok(normalize_optional_value(parsed, Some(owned(default.as_str()))))
    }

    fn format(stored: &Option<String>, default: &String) -> (r: String) {
        match stored {
            Some(s) => {
                assert(stored.deep_view() == Some(s@));
                owned(s.as_str())
            },
            None => owned(default.as_str()),
        }
    }

    fn stored_from_default(default: &String) -> (r: Option<String>) {
        let r = Some(owned(default.as_str()));
        assert(r.deep_view() == Some(default@));
        r
    }

    fn validate(stored: &Option<String>) -> (r: Result<(), ConfigError>) {
        V::validate(stored)
    }

    fn reset_value(default: &String) -> (r: Option<String>) {
        None
    }

    fn fallback_default() -> (r: String) {
        String::new()
    }
}

impl<V: ConfigValidator<Option<String>>> ConfigType for Text<V, Optional> {
    type Stored = Option<String>;

    type Default = Option<String>;

    type Value = Option<String>;

    open spec fn spec_get(stored: Option<Seq<char>>, default: Option<Seq<char>>) -> Option<
        Seq<char>,
    > {
        match stored {
            Some(s) => Some(s),
            None => default,
        }
    }

    open spec fn spec_parse(input: Seq<char>, default: Option<Seq<char>>) -> Result<
        Option<Seq<char>>,
        Seq<char>,
    > {
        if is_none_word(input) {
            Ok(None)
        } else {
            Ok(normalized(Some(input), default))
        }
    }

    open spec fn spec_format(stored: Option<Seq<char>>, default: Option<Seq<char>>) -> Seq<char> {
        match stored {
            Some(s) => s,
            None => match default {
                Some(d) => d,
                None => "none"@,
            },
        }
    }

    open spec fn spec_stored_from_default(default: Option<Seq<char>>) -> Option<Seq<char>> {
        default
    }

    open spec fn spec_reset_value(default: Option<Seq<char>>) -> Option<Seq<char>> {
        None
    }

    open spec fn spec_validate(stored: Option<Seq<char>>) -> Option<ConfigErrorView> {
        V::spec_check(stored)
    }

    open spec fn spec_fallback_default() -> Option<Seq<char>> {
        None
    }

    proof fn lemma_reset_shows_default(default: Option<Seq<char>>) {
    }

    fn get(stored: &Option<String>, default: &Option<String>) -> (r: Option<String>) {
        match stored {
            Some(s) => Some(owned(s.as_str())),
            None => copy_optional_string(default),
        }
    }

    fn parse(input: &str, default: &Option<String>) -> (r: Result<Option<String>, ConfigError>) {
        let text = |s: &str| -> (r: Result<String, ConfigError>)
            ensures
                r matches Ok(x) && x@ == s@,
            { Ok(owned(s)) };
        let parsed = parse_optional_value(input, text);
        match parsed {
            Ok(p) => Ok(normalize_optional_value(p, copy_optional_string(default))),
            Err(e) => Err(e),
        }
    }

    fn format(stored: &Option<String>, default: &Option<String>) -> (r: String) {
        match stored {
            Some(s) => owned(s.as_str()),
            None => match default {
                Some(d) => owned(d.as_str()),
                None => owned("none"),
            },
        }
    }

    fn stored_from_default(default: &Option<String>) -> (r: Option<String>) {
        copy_optional_string(default)
    }

    fn validate(stored: &Option<String>) -> (r: Result<(), ConfigError>) {
        V::validate(stored)
    }

    fn reset_value(default: &Option<String>) -> (r: Option<String>) {
        None
    }

    fn fallback_default() -> (r: Option<String>) {
        None
    }
}

/// Laws of `Text` fields: `none` is refused by a required field and clears an optional one
/// back to its default; any other input is read back by the getter as written, and is
/// never stored when it equals the default.
pub proof fn lemma_text_reads_back<V: ConfigValidator<Option<String>>>(
    input: Seq<char>,
    required_default: Seq<char>,
    optional_default: Option<Seq<char>>,
)
    ensures
        is_none_word(input) ==> Text::<V, Required>::spec_parse(input, required_default) is Err,
        is_none_word(input) ==> (Text::<V, Optional>::spec_parse(input, optional_default) matches Ok(
            st,
        ) && Text::<V, Optional>::spec_get(st, optional_default) == optional_default),
        !is_none_word(input) ==> {
            &&& Text::<V, Required>::spec_parse(input, required_default) matches Ok(st)
                && Text::<V, Required>::spec_get(st, required_default) == input && st != Some(
                required_default,
            )
            &&& Text::<V, Optional>::spec_parse(input, optional_default) matches Ok(st)
                && Text::<V, Optional>::spec_get(st, optional_default) == Some(input) && st
                != optional_default
        },
{
}

} // verus!
