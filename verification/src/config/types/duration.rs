use std::marker::PhantomData;

use vstd::prelude::*;

use crate::config::values::{DurationValue, lemma_duration_text_not_none, lemma_duration_text_parses_back, parse_duration_spec, duration_text};
use crate::config_type::ConfigType;
use crate::error::{ConfigError, ConfigErrorView};
use crate::helpers::{normalize_optional_value, normalized, parse_optional_value};
use crate::optionality::{Optional, Required};
use crate::strings::{is_none_keyword, is_none_word, owned};
use crate::validator::{ConfigValidator, NoValidation};

verus! {

/// The message for an input that is not a duration.
pub open spec fn duration_error_message(input: Seq<char>) -> Seq<char> {
    "Invalid duration '"@ + input + "': expected a number followed by ms, s, m, h or d"@
}

/// Reads a duration, naming the input in the error.
pub fn parse_duration_cli(input: &str) -> (r: Result<DurationValue, ConfigError>)
    ensures
        match parse_duration_spec(input@) {
            Some(v) => r matches Ok(x) && x.millis == v,
            None => r matches Err(e) && e@ == ConfigErrorView::InvalidValue(duration_error_message(input@)),
        },
{
    match DurationValue::parse_text(input) {
        Some(v) => Ok(v),
        None => {
            let mut msg = owned("Invalid duration '");
            msg.append(input);
            msg.append("': expected a number followed by ms, s, m, h or d");
            Err(ConfigError::InvalidValue(msg))
        },
    }
}

/// Duration config value (required — always resolves to a duration).
pub struct Duration<V = NoValidation, O = Required>(PhantomData<(V, O)>);

impl<V: ConfigValidator<Option<DurationValue>>> ConfigType for Duration<V, Required> {
    type Stored = Option<DurationValue>;

    type Default = DurationValue;

    type Value = DurationValue;

    open spec fn spec_get(stored: Option<u64>, default: u64) -> u64 {
        match stored {
            Some(v) => v,
            None => default,
        }
    }

    open spec fn spec_parse(input: Seq<char>, default: u64) -> Result<Option<u64>, Seq<char>> {
        if is_none_word(input) {
            Err("'none' is not valid for a required duration field"@)
        } else {
            match parse_duration_spec(input) {
                Some(v) => Ok(normalized(Some(v), Some(default))),
                None => Err(duration_error_message(input)),
            }
        }
    }

    open spec fn spec_format(stored: Option<u64>, default: u64) -> Seq<char> {
        duration_text(Self::spec_get(stored, default) as nat)
    }

    open spec fn spec_stored_from_default(default: u64) -> Option<u64> {
        Some(default)
    }

    open spec fn spec_reset_value(default: u64) -> Option<u64> {
        None
    }

    open spec fn spec_validate(stored: Option<u64>) -> Option<ConfigErrorView> {
        V::spec_check(stored)
    }

    open spec fn spec_fallback_default() -> u64 {
        0
    }

    proof fn lemma_reset_shows_default(default: u64) {
    }

    fn get(stored: &Option<DurationValue>, default: &DurationValue) -> (r: DurationValue) {
        match stored {
            Some(v) => *v,
            None => *default,
        }
    }

    fn parse(input: &str, default: &DurationValue) -> (r: Result<Option<DurationValue>, ConfigError>) {
        let is_none = is_none_keyword(input);
        if is_none {
            return Err(
                ConfigError::InvalidValue(owned("'none' is not valid for a required duration field")),
            );
        }
        match parse_duration_cli(input) {
            Ok(parsed) => {
                let r = normalize_optional_value(Some(parsed), Some(*default));
                assert(Some(parsed).deep_view() == Some(parsed.millis));
                assert(Some(*default).deep_view() == Some(default.millis));
                Ok(r)
            },
            Err(e) => Err(e),
        }
    }

    fn format(stored: &Option<DurationValue>, default: &DurationValue) -> (r: String) {
        let v = match stored {
            Some(x) => {
                assert(stored.deep_view() == Some(x.millis));
                *x
            },
            None => *default,
        };
        v.to_text()
    }

    fn stored_from_default(default: &DurationValue) -> (r: Option<DurationValue>) {
        assert(Some(*default).deep_view() == Some(default.millis));
        Some(*default)
    }

    fn validate(stored: &Option<DurationValue>) -> (r: Result<(), ConfigError>) {
        V::validate(stored)
    }

    fn reset_value(default: &DurationValue) -> (r: Option<DurationValue>) {
        None
    }

    fn fallback_default() -> (r: DurationValue) {
        DurationValue { millis: 0 }
    }
}

impl<V: ConfigValidator<Option<DurationValue>>> ConfigType for Duration<V, Optional> {
    type Stored = Option<DurationValue>;

    type Default = Option<DurationValue>;

    type Value = Option<DurationValue>;

    open spec fn spec_get(stored: Option<u64>, default: Option<u64>) -> Option<u64> {
        match stored {
            Some(v) => Some(v),
            None => default,
        }
    }

    open spec fn spec_parse(input: Seq<char>, default: Option<u64>) -> Result<
        Option<u64>,
        Seq<char>,
    > {
        if is_none_word(input) {
            Ok(None)
        } else {
            match parse_duration_spec(input) {
                Some(v) => Ok(normalized(Some(v), default)),
                None => Err(duration_error_message(input)),
            }
        }
    }

    open spec fn spec_format(stored: Option<u64>, default: Option<u64>) -> Seq<char> {
        match Self::spec_get(stored, default) {
            Some(v) => duration_text(v as nat),
            None => "none"@,
        }
    }

    open spec fn spec_stored_from_default(default: Option<u64>) -> Option<u64> {
        default
    }

    open spec fn spec_reset_value(default: Option<u64>) -> Option<u64> {
        None
    }

    open spec fn spec_validate(stored: Option<u64>) -> Option<ConfigErrorView> {
        V::spec_check(stored)
    }

    open spec fn spec_fallback_default() -> Option<u64> {
        None
    }

    proof fn lemma_reset_shows_default(default: Option<u64>) {
    }

    fn get(stored: &Option<DurationValue>, default: &Option<DurationValue>) -> (r: Option<DurationValue>) {
        match stored {
            Some(v) => Some(*v),
            None => *default,
        }
    }

    fn parse(input: &str, default: &Option<DurationValue>) -> (r: Result<Option<DurationValue>, ConfigError>) {
        match parse_optional_value(input, parse_duration_cli) {
            Ok(parsed) => Ok(normalize_optional_value(parsed, *default)),
            Err(e) => Err(e),
        }
    }

    fn format(stored: &Option<DurationValue>, default: &Option<DurationValue>) -> (r: String) {
        let v = match stored {
            Some(x) => Some(*x),
            None => *default,
        };
        match v {
            Some(x) => x.to_text(),
            None => owned("none"),
        }
    }

    fn stored_from_default(default: &Option<DurationValue>) -> (r: Option<DurationValue>) {
        *default
    }

    fn validate(stored: &Option<DurationValue>) -> (r: Result<(), ConfigError>) {
        V::validate(stored)
    }

    fn reset_value(default: &Option<DurationValue>) -> (r: Option<DurationValue>) {
        None
    }

    fn fallback_default() -> (r: Option<DurationValue>) {
        None
    }
}

/// Laws of `Duration` fields: `none` is refused by a required field and clears an optional
/// one back to its default; a valid duration is read back by the getter and is never stored
/// when it equals the default; and the displayed text of a stored value, set again, gives
/// the same value.
pub proof fn lemma_duration_reads_back<V: ConfigValidator<Option<DurationValue>>>(
    input: Seq<char>,
    required_default: u64,
    optional_default: Option<u64>,
    stored: Option<u64>,
)
    ensures
        is_none_word(input) ==> Duration::<V, Required>::spec_parse(input, required_default) is Err,
        is_none_word(input) ==> (Duration::<V, Optional>::spec_parse(input, optional_default) matches Ok(
            st,
        ) && Duration::<V, Optional>::spec_get(st, optional_default) == optional_default),
        !is_none_word(input) && parse_duration_spec(input) is None ==> Duration::<V, Required>::spec_parse(
            input,
            required_default,
        ) is Err && Duration::<V, Optional>::spec_parse(input, optional_default) is Err,
        !is_none_word(input) && parse_duration_spec(input) is Some ==> {
            let v = parse_duration_spec(input)->Some_0;
            &&& Duration::<V, Required>::spec_parse(input, required_default) matches Ok(st)
                && Duration::<V, Required>::spec_get(st, required_default) == v && st != Some(
                required_default,
            )
            &&& Duration::<V, Optional>::spec_parse(input, optional_default) matches Ok(st)
                && Duration::<V, Optional>::spec_get(st, optional_default) == Some(v) && st
                != optional_default
        },
        Duration::<V, Required>::spec_parse(
            Duration::<V, Required>::spec_format(stored, required_default),
            required_default,
        ) matches Ok(st) && Duration::<V, Required>::spec_get(st, required_default) == Duration::<
            V,
            Required,
        >::spec_get(stored, required_default),
{
    let x = Duration::<V, Required>::spec_get(stored, required_default);
    lemma_duration_text_parses_back(x);
    lemma_duration_text_not_none(x);
}

} // verus!
