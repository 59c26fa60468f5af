use std::marker::PhantomData;

use vstd::prelude::*;

use crate::config::values::{FileSizeValue, lemma_file_size_text_not_none, lemma_file_size_text_parses_back, parse_file_size_spec, file_size_text};
use crate::config_type::ConfigType;
use crate::error::{ConfigError, ConfigErrorView};
use crate::helpers::{normalize_optional_value, normalized, parse_optional_value};
use crate::optionality::{Optional, Required};
use crate::strings::{is_none_keyword, is_none_word, owned};
use crate::validator::{ConfigValidator, NoValidation};

verus! {

/// The message for an input that is not a file size.
pub open spec fn file_size_error_message(input: Seq<char>) -> Seq<char> {
    "Invalid file size '"@ + input + "': expected a number followed by B, KB, MB, GB, TB, KiB, MiB, GiB or TiB"@
}

/// Reads a file size, naming the input in the error.
pub fn parse_file_size_cli(input: &str) -> (r: Result<FileSizeValue, ConfigError>)
    ensures
        match parse_file_size_spec(input@) {
            Some(v) => r matches Ok(x) && x.bytes == v,
            None => r matches Err(e) && e@ == ConfigErrorView::InvalidValue(file_size_error_message(input@)),
        },
{
    match FileSizeValue::parse_text(input) {
        Some(v) => Ok(v),
        None => {
            let mut msg = owned("Invalid file size '");
            msg.append(input);
            msg.append("': expected a number followed by B, KB, MB, GB, TB, KiB, MiB, GiB or TiB");
            Err(ConfigError::InvalidValue(msg))
        },
    }
}

/// File-size config value (required).
pub struct FileSize<V = NoValidation, O = Required>(PhantomData<(V, O)>);

impl<V: ConfigValidator<Option<FileSizeValue>>> ConfigType for FileSize<V, Required> {
    type Stored = Option<FileSizeValue>;

    type Default = FileSizeValue;

    type Value = FileSizeValue;

    open spec fn spec_get(stored: Option<u64>, default: u64) -> u64 {
        match stored {
            Some(v) => v,
            None => default,
        }
    }

    open spec fn spec_parse(input: Seq<char>, default: u64) -> Result<Option<u64>, Seq<char>> {
        if is_none_word(input) {
            Err("'none' is not valid for a required file size field"@)
        } else {
            match parse_file_size_spec(input) {
                Some(v) => Ok(normalized(Some(v), Some(default))),
                None => Err(file_size_error_message(input)),
            }
        }
    }

    open spec fn spec_format(stored: Option<u64>, default: u64) -> Seq<char> {
        file_size_text(Self::spec_get(stored, default) as nat)
    }

    open spec fn spec_stored_from_default(default: u64) -> Option<u64> {
        Some(default)
    }

    open spec fn spec_reset_value(default: u64) -> Option<u64> {
        None
    }

    open spec fn spec_validate(stored: Option<u64>) -> Option<ConfigErrorView> {
        V::spec_check(stored)
    }

    open spec fn spec_fallback_default() -> u64 {
        0
    }

    proof fn lemma_reset_shows_default(default: u64) {
    }

    fn get(stored: &Option<FileSizeValue>, default: &FileSizeValue) -> (r: FileSizeValue) {
        match stored {
            Some(v) => *v,
            None => *default,
        }
    }

    fn parse(input: &str, default: &FileSizeValue) -> (r: Result<Option<FileSizeValue>, ConfigError>) {
        let is_none = is_none_keyword(input);
        if is_none {
            return Err(
                ConfigError::InvalidValue(owned("'none' is not valid for a required file size field")),
            );
        }
        match parse_file_size_cli(input) {
            Ok(parsed) => {
                let r = normalize_optional_value(Some(parsed), Some(*default));
                assert(Some(parsed).deep_view() == Some(parsed.bytes));
                assert(Some(*default).deep_view() == Some(default.bytes));
                Ok(r)
            },
            Err(e) => Err(e),
        }
    }

    fn format(stored: &Option<FileSizeValue>, default: &FileSizeValue) -> (r: String) {
        let v = match stored {
            Some(x) => {
                assert(stored.deep_view() == Some(x.bytes));
                *x
            },
            None => *default,
        };
        v.to_text()
    }

    fn stored_from_default(default: &FileSizeValue) -> (r: Option<FileSizeValue>) {
        assert(Some(*default).deep_view() == Some(default.bytes));
        Some(*default)
    }

    fn validate(stored: &Option<FileSizeValue>) -> (r: Result<(), ConfigError>) {
        V::validate(stored)
    }

    fn reset_value(default: &FileSizeValue) -> (r: Option<FileSizeValue>) {
        None
    }

    fn fallback_default() -> (r: FileSizeValue) {
        FileSizeValue { bytes: 0 }
    }
}

impl<V: ConfigValidator<Option<FileSizeValue>>> ConfigType for FileSize<V, Optional> {
    type Stored = Option<FileSizeValue>;

    type Default = Option<FileSizeValue>;

    type Value = Option<FileSizeValue>;

    open spec fn spec_get(stored: Option<u64>, default: Option<u64>) -> Option<u64> {
        match stored {
            Some(v) => Some(v),
            None => default,
        }
    }

    open spec fn spec_parse(input: Seq<char>, default: Option<u64>) -> Result<
        Option<u64>,
        Seq<char>,
    > {
        if is_none_word(input) {
            Ok(None)
        } else {
            match parse_file_size_spec(input) {
                Some(v) => Ok(normalized(Some(v), default)),
                None => Err(file_size_error_message(input)),
            }
        }
    }

    open spec fn spec_format(stored: Option<u64>, default: Option<u64>) -> Seq<char> {
        match Self::spec_get(stored, default) {
            Some(v) => file_size_text(v as nat),
            None => "none"@,
        }
    }

    open spec fn spec_stored_from_default(default: Option<u64>) -> Option<u64> {
        default
    }

    open spec fn spec_reset_value(default: Option<u64>) -> Option<u64> {
        None
    }

    open spec fn spec_validate(stored: Option<u64>) -> Option<ConfigErrorView> {
        V::spec_check(stored)
    }

    open spec fn spec_fallback_default() -> Option<u64> {
        None
    }

    proof fn lemma_reset_shows_default(default: Option<u64>) {
    }

    fn get(stored: &Option<FileSizeValue>, default: &Option<FileSizeValue>) -> (r: Option<FileSizeValue>) {
        match stored {
            Some(v) => Some(*v),
            None => *default,
        }
    }

    fn parse(input: &str, default: &Option<FileSizeValue>) -> (r: Result<Option<FileSizeValue>, ConfigError>) {
        match parse_optional_value(input, parse_file_size_cli) {
            Ok(parsed) => Ok(normalize_optional_value(parsed, *default)),
            Err(e) => Err(e),
        }
    }

    fn format(stored: &Option<FileSizeValue>, default: &Option<FileSizeValue>) -> (r: String) {
        let v = match stored {
            Some(x) => Some(*x),
            None => *default,
        };
        match v {
            Some(x) => x.to_text(),
            None => owned("none"),
        }
    }

    fn stored_from_default(default: &Option<FileSizeValue>) -> (r: Option<FileSizeValue>) {
        *default
    }

    fn validate(stored: &Option<FileSizeValue>) -> (r: Result<(), ConfigError>) {
        V::validate(stored)
    }

    fn reset_value(default: &Option<FileSizeValue>) -> (r: Option<FileSizeValue>) {
        None
    }

    fn fallback_default() -> (r: Option<FileSizeValue>) {
        None
    }
}

/// Laws of `FileSize` fields: `none` is refused by a required field and clears an optional
/// one back to its default; a valid file size is read back by the getter and is never stored
/// when it equals the default; and the displayed text of a stored value, set again, gives
/// the same value.
pub proof fn lemma_file_size_reads_back<V: ConfigValidator<Option<FileSizeValue>>>(
    input: Seq<char>,
    required_default: u64,
    optional_default: Option<u64>,
    stored: Option<u64>,
)
    ensures
        is_none_word(input) ==> FileSize::<V, Required>::spec_parse(input, required_default) is Err,
        is_none_word(input) ==> (FileSize::<V, Optional>::spec_parse(input, optional_default) matches Ok(
            st,
        ) && FileSize::<V, Optional>::spec_get(st, optional_default) == optional_default),
        !is_none_word(input) && parse_file_size_spec(input) is None ==> FileSize::<V, Required>::spec_parse(
            input,
            required_default,
        ) is Err && FileSize::<V, Optional>::spec_parse(input, optional_default) is Err,
        !is_none_word(input) && parse_file_size_spec(input) is Some ==> {
            let v = parse_file_size_spec(input)->Some_0;
            &&& FileSize::<V, Required>::spec_parse(input, required_default) matches Ok(st)
                && FileSize::<V, Required>::spec_get(st, required_default) == v && st != Some(
                required_default,
            )
            &&& FileSize::<V, Optional>::spec_parse(input, optional_default) matches Ok(st)
                && FileSize::<V, Optional>::spec_get(st, optional_default) == Some(v) && st
                != optional_default
        },
        FileSize::<V, Required>::spec_parse(
            FileSize::<V, Required>::spec_format(stored, required_default),
            required_default,
        ) matches Ok(st) && FileSize::<V, Required>::spec_get(st, required_default) == FileSize::<
            V,
            Required,
        >::spec_get(stored, required_default),
{
    let x = FileSize::<V, Required>::spec_get(stored, required_default);
    lemma_file_size_text_parses_back(x);
    lemma_file_size_text_not_none(x);
}

} // verus!
