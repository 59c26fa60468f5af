use std::marker::PhantomData;

use vstd::prelude::*;

use crate::config_type::ConfigType;
use crate::error::{ConfigError, ConfigErrorView};
use crate::helpers::{normalize_optional_value, normalized, parse_optional_value};
use crate::optionality::{Optional, Required};
use crate::strings::{
    int_text, int_to_string, is_none_keyword, is_none_word, lemma_int_text_not_none,
    lemma_int_text_parses_back, owned, parse_integer, parse_integer_spec,
};
use crate::validator::{ConfigValidator, NoValidation};

verus! {

/// The message for an input that is not a number of the field's type; `prefix` names the
/// type (`invalid u32: '` for a `u32`).
pub open spec fn int_error_message(prefix: Seq<char>, input: Seq<char>) -> Seq<char> {
    prefix + input + "'"@
}

/// Reads an integer in `lo..=hi` from `input` as `str::parse` does, or gives the
/// `InvalidValue` error whose message is `prefix`, the input and a closing quote.
pub fn parse_in_range(input: &str, signed: bool, lo: i128, hi: i128, prefix: &str) -> (r: Result<
    i128,
    ConfigError,
>)
    requires
        -0x1_0000_0000_0000_0000 <= lo <= hi <= 0x1_0000_0000_0000_0000,
    ensures
        match parse_integer_spec(input@, signed, lo as int, hi as int) {
            Some(v) => r matches Ok(x) && x as int == v,
            None => r matches Err(e) && e@ == ConfigErrorView::InvalidValue(
                int_error_message(prefix@, input@),
            ),
        },
{
    match parse_integer(input, signed, lo, hi) {
        Some(v) => Ok(v),
        None => {
            let mut msg = owned(prefix);
            msg.append(input);
            msg.append("'");
            Err(ConfigError::InvalidValue(msg))
        },
    }
}

/// A u8 config value.
///
/// # Required (default)
/// Always has a value — falls back to the default when absent.
///
/// # Optional (`U8<V, Optional>`)
/// May be absent — getter returns `Option<u8>`.
pub struct U8<V = NoValidation, O = Required>(PhantomData<(V, O)>);

impl<V: ConfigValidator<Option<u8>>> ConfigType for U8<V, Required> {
    type Stored = Option<u8>;

    type Default = u8;

    type Value = u8;

    open spec fn spec_get(stored: Option<u8>, default: u8) -> u8 {
        match stored {
            Some(v) => v,
            None => default,
        }
    }

    open spec fn spec_parse(input: Seq<char>, default: u8) -> Result<Option<u8>, Seq<char>> {
        if is_none_word(input) {
            Err("'none' is not valid for a required u8 field"@)
        } else {
            match parse_integer_spec(input, false, 0, 255) {
                Some(v) => Ok(normalized(Some(v as u8), Some(default))),
                None => Err(int_error_message("invalid u8: '"@, input)),
            }
        }
    }

    open spec fn spec_format(stored: Option<u8>, default: u8) -> Seq<char> {
        int_text(Self::spec_get(stored, default) as int)
    }

    open spec fn spec_stored_from_default(default: u8) -> Option<u8> {
        Some(default)
    }

    open spec fn spec_reset_value(default: u8) -> Option<u8> {
        None
    }

    open spec fn spec_validate(stored: Option<u8>) -> Option<ConfigErrorView> {
        V::spec_check(stored)
    }

    open spec fn spec_fallback_default() -> u8 {
        0
    }

    proof fn lemma_reset_shows_default(default: u8) {
    }

    fn get(stored: &Option<u8>, default: &u8) -> (r: u8) {
        match stored {
            Some(v) => *v,
            None => *default,
        }
    }

    fn parse(input: &str, default: &u8) -> (r: Result<Option<u8>, ConfigError>) {
        let is_none = is_none_keyword(input);
        if is_none {
            return Err(
                ConfigError::InvalidValue(owned("'none' is not valid for a required u8 field")),
            );
        }
        match parse_in_range(input, false, 0, 255, "invalid u8: '") {
            Ok(v) => Ok(normalize_optional_value(Some(v as u8), Some(*default))),
            Err(e) => Err(e),
        }
    }

    fn format(stored: &Option<u8>, default: &u8) -> (r: String) {
        assert(stored.deep_view() == *stored);
        let v = match stored {
            Some(x) => *x,
            None => *default,
        };
        int_to_string(v as i128)
    }

    fn stored_from_default(default: &u8) -> (r: Option<u8>) {
        assert(Some(*default).deep_view() == Some(*default));
        Some(*default)
    }

    fn validate(stored: &Option<u8>) -> (r: Result<(), ConfigError>) {
        V::validate(stored)
    }

    fn reset_value(default: &u8) -> (r: Option<u8>) {
        None
    }

    fn fallback_default() -> (r: u8) {
        0
    }
}

impl<V: ConfigValidator<Option<u8>>> ConfigType for U8<V, Optional> {
    type Stored = Option<u8>;

    type Default = Option<u8>;

    type Value = Option<u8>;

    open spec fn spec_get(stored: Option<u8>, default: Option<u8>) -> Option<u8> {
        match stored {
            Some(v) => Some(v),
            None => default,
        }
    }

    open spec fn spec_parse(input: Seq<char>, default: Option<u8>) -> Result<
        Option<u8>,
        Seq<char>,
    > {
        if is_none_word(input) {
            Ok(None)
        } else {
            match parse_integer_spec(input, false, 0, 255) {
                Some(v) => Ok(normalized(Some(v as u8), default)),
                None => Err(int_error_message("invalid u8: '"@, input)),
            }
        }
    }

    open spec fn spec_format(stored: Option<u8>, default: Option<u8>) -> Seq<char> {
        match Self::spec_get(stored, default) {
            Some(v) => int_text(v as int),
            None => "none"@,
        }
    }

    open spec fn spec_stored_from_default(default: Option<u8>) -> Option<u8> {
        default
    }

    open spec fn spec_reset_value(default: Option<u8>) -> Option<u8> {
        None
    }

    open spec fn spec_validate(stored: Option<u8>) -> Option<ConfigErrorView> {
        V::spec_check(stored)
    }

    open spec fn spec_fallback_default() -> Option<u8> {
        None
    }

    proof fn lemma_reset_shows_default(default: Option<u8>) {
    }

    fn get(stored: &Option<u8>, default: &Option<u8>) -> (r: Option<u8>) {
        match stored {
            Some(v) => Some(*v),
            None => *default,
        }
    }

    fn parse(input: &str, default: &Option<u8>) -> (r: Result<Option<u8>, ConfigError>) {
        let read = |s: &str| -> (r: Result<u8, ConfigError>)
            ensures
                match parse_integer_spec(s@, false, 0, 255) {
                    Some(v) => r matches Ok(x) && x as int == v,
                    None => r matches Err(e) && e@ == ConfigErrorView::InvalidValue(
                        int_error_message("invalid u8: '"@, s@),
                    ),
                },
            {
                match parse_in_range(s, false, 0, 255, "invalid u8: '") {
                    Ok(v) => Ok(v as u8),
                    Err(e) => Err(e),
                }
            };
        match parse_optional_value(input, read) {
            Ok(parsed) => Ok(normalize_optional_value(parsed, *default)),
            Err(e) => Err(e),
        }
    }

    fn format(stored: &Option<u8>, default: &Option<u8>) -> (r: String) {
        assert(stored.deep_view() == *stored);
        assert(default.deep_view() == *default);
        let v = match stored {
            Some(x) => Some(*x),
            None => *default,
        };
        match v {
            Some(x) => int_to_string(x as i128),
            None => owned("none"),
        }
    }

    fn stored_from_default(default: &Option<u8>) -> (r: Option<u8>) {
        *default
    }

    fn validate(stored: &Option<u8>) -> (r: Result<(), ConfigError>) {
        V::validate(stored)
    }

    fn reset_value(default: &Option<u8>) -> (r: Option<u8>) {
        None
    }

    fn fallback_default() -> (r: Option<u8>) {
        None
    }
}

/// Laws of `U8` fields: `none` is refused by a required field and clears an optional one
/// back to its default; a number in range is read back by the getter and is never stored
/// when it equals the default; and the displayed text of a stored value, set again, gives
/// the same value.
pub proof fn lemma_u8_reads_back<V: ConfigValidator<Option<u8>>>(
    input: Seq<char>,
    required_default: u8,
    optional_default: Option<u8>,
    stored: Option<u8>,
)
    ensures
        is_none_word(input) ==> U8::<V, Required>::spec_parse(input, required_default) is Err,
        is_none_word(input) ==> (U8::<V, Optional>::spec_parse(input, optional_default) matches Ok(st)
            && U8::<V, Optional>::spec_get(st, optional_default) == optional_default),
        !is_none_word(input) && parse_integer_spec(input, false, 0, 255) is None ==> U8::<
            V,
            Required,
        >::spec_parse(input, required_default) is Err && U8::<V, Optional>::spec_parse(
            input,
            optional_default,
        ) is Err,
        !is_none_word(input) && parse_integer_spec(input, false, 0, 255) is Some ==> {
            let v = parse_integer_spec(input, false, 0, 255)->Some_0 as u8;
            &&& U8::<V, Required>::spec_parse(input, required_default) matches Ok(st)
                && U8::<V, Required>::spec_get(st, required_default) == v && st != Some(
                required_default,
            )
            &&& U8::<V, Optional>::spec_parse(input, optional_default) matches Ok(st)
                && U8::<V, Optional>::spec_get(st, optional_default) == Some(v) && st
                != optional_default
        },
        U8::<V, Required>::spec_parse(
            U8::<V, Required>::spec_format(stored, required_default),
            required_default,
        ) matches Ok(st) && U8::<V, Required>::spec_get(st, required_default) == U8::<
            V,
            Required,
        >::spec_get(stored, required_default),
{
    let x = U8::<V, Required>::spec_get(stored, required_default);
    lemma_int_text_parses_back(x as int, false, 0, 255);
    lemma_int_text_not_none(x as int);
}

/// A u16 config value.
///
/// # Required (default)
/// Always has a value — falls back to the default when absent.
///
/// # Optional (`U16<V, Optional>`)
/// May be absent — getter returns `Option<u16>`.
pub struct U16<V = NoValidation, O = Required>(PhantomData<(V, O)>);

impl<V: ConfigValidator<Option<u16>>> ConfigType for U16<V, Required> {
    type Stored = Option<u16>;

    type Default = u16;

    type Value = u16;

    open spec fn spec_get(stored: Option<u16>, default: u16) -> u16 {
        match stored {
            Some(v) => v,
            None => default,
        }
    }

    open spec fn spec_parse(input: Seq<char>, default: u16) -> Result<Option<u16>, Seq<char>> {
        if is_none_word(input) {
            Err("'none' is not valid for a required u16 field"@)
        } else {
            match parse_integer_spec(input, false, 0, 65535) {
                Some(v) => Ok(normalized(Some(v as u16), Some(default))),
                None => Err(int_error_message("invalid u16: '"@, input)),
            }
        }
    }

    open spec fn spec_format(stored: Option<u16>, default: u16) -> Seq<char> {
        int_text(Self::spec_get(stored, default) as int)
    }

    open spec fn spec_stored_from_default(default: u16) -> Option<u16> {
        Some(default)
    }

    open spec fn spec_reset_value(default: u16) -> Option<u16> {
        None
    }

    open spec fn spec_validate(stored: Option<u16>) -> Option<ConfigErrorView> {
        V::spec_check(stored)
    }

    open spec fn spec_fallback_default() -> u16 {
        0
    }

    proof fn lemma_reset_shows_default(default: u16) {
    }

    fn get(stored: &Option<u16>, default: &u16) -> (r: u16) {
        match stored {
            Some(v) => *v,
            None => *default,
        }
    }

    fn parse(input: &str, default: &u16) -> (r: Result<Option<u16>, ConfigError>) {
        let is_none = is_none_keyword(input);
        if is_none {
            return Err(
                ConfigError::InvalidValue(owned("'none' is not valid for a required u16 field")),
            );
        }
        match parse_in_range(input, false, 0, 65535, "invalid u16: '") {
            Ok(v) => Ok(normalize_optional_value(Some(v as u16), Some(*default))),
            Err(e) => Err(e),
        }
    }

    fn format(stored: &Option<u16>, default: &u16) -> (r: String) {
        assert(stored.deep_view() == *stored);
        let v = match stored {
            Some(x) => *x,
            None => *default,
        };
        int_to_string(v as i128)
    }

    fn stored_from_default(default: &u16) -> (r: Option<u16>) {
        assert(Some(*default).deep_view() == Some(*default));
        Some(*default)
    }

    fn validate(stored: &Option<u16>) -> (r: Result<(), ConfigError>) {
        V::validate(stored)
    }

    fn reset_value(default: &u16) -> (r: Option<u16>) {
        None
    }

    fn fallback_default() -> (r: u16) {
        0
    }
}

impl<V: ConfigValidator<Option<u16>>> ConfigType for U16<V, Optional> {
    type Stored = Option<u16>;

    type Default = Option<u16>;

    type Value = Option<u16>;

    open spec fn spec_get(stored: Option<u16>, default: Option<u16>) -> Option<u16> {
        match stored {
            Some(v) => Some(v),
            None => default,
        }
    }

    open spec fn spec_parse(input: Seq<char>, default: Option<u16>) -> Result<
        Option<u16>,
        Seq<char>,
    > {
        if is_none_word(input) {
            Ok(None)
        } else {
            match parse_integer_spec(input, false, 0, 65535) {
                Some(v) => Ok(normalized(Some(v as u16), default)),
                None => Err(int_error_message("invalid u16: '"@, input)),
            }
        }
    }

    open spec fn spec_format(stored: Option<u16>, default: Option<u16>) -> Seq<char> {
        match Self::spec_get(stored, default) {
            Some(v) => int_text(v as int),
            None => "none"@,
        }
    }

    open spec fn spec_stored_from_default(default: Option<u16>) -> Option<u16> {
        default
    }

    open spec fn spec_reset_value(default: Option<u16>) -> Option<u16> {
        None
    }

    open spec fn spec_validate(stored: Option<u16>) -> Option<ConfigErrorView> {
        V::spec_check(stored)
    }

    open spec fn spec_fallback_default() -> Option<u16> {
        None
    }

    proof fn lemma_reset_shows_default(default: Option<u16>) {
    }

    fn get(stored: &Option<u16>, default: &Option<u16>) -> (r: Option<u16>) {
        match stored {
            Some(v) => Some(*v),
            None => *default,
        }
    }

    fn parse(input: &str, default: &Option<u16>) -> (r: Result<Option<u16>, ConfigError>) {
        let read = |s: &str| -> (r: Result<u16, ConfigError>)
            ensures
                match parse_integer_spec(s@, false, 0, 65535) {
                    Some(v) => r matches Ok(x) && x as int == v,
                    None => r matches Err(e) && e@ == ConfigErrorView::InvalidValue(
                        int_error_message("invalid u16: '"@, s@),
                    ),
                },
            {
                match parse_in_range(s, false, 0, 65535, "invalid u16: '") {
                    Ok(v) => Ok(v as u16),
                    Err(e) => Err(e),
                }
            };
        match parse_optional_value(input, read) {
            Ok(parsed) => Ok(normalize_optional_value(parsed, *default)),
            Err(e) => Err(e),
        }
    }

    fn format(stored: &Option<u16>, default: &Option<u16>) -> (r: String) {
        assert(stored.deep_view() == *stored);
        assert(default.deep_view() == *default);
        let v = match stored {
            Some(x) => Some(*x),
            None => *default,
        };
        match v {
            Some(x) => int_to_string(x as i128),
            None => owned("none"),
        }
    }

    fn stored_from_default(default: &Option<u16>) -> (r: Option<u16>) {
        *default
    }

    fn validate(stored: &Option<u16>) -> (r: Result<(), ConfigError>) {
        V::validate(stored)
    }

    fn reset_value(default: &Option<u16>) -> (r: Option<u16>) {
        None
    }

    fn fallback_default() -> (r: Option<u16>) {
        None
    }
}

/// Laws of `U16` fields: `none` is refused by a required field and clears an optional one
/// back to its default; a number in range is read back by the getter and is never stored
/// when it equals the default; and the displayed text of a stored value, set again, gives
/// the same value.
pub proof fn lemma_u16_reads_back<V: ConfigValidator<Option<u16>>>(
    input: Seq<char>,
    required_default: u16,
    optional_default: Option<u16>,
    stored: Option<u16>,
)
    ensures
        is_none_word(input) ==> U16::<V, Required>::spec_parse(input, required_default) is Err,
        is_none_word(input) ==> (U16::<V, Optional>::spec_parse(input, optional_default) matches Ok(st)
            && U16::<V, Optional>::spec_get(st, optional_default) == optional_default),
        !is_none_word(input) && parse_integer_spec(input, false, 0, 65535) is None ==> U16::<
            V,
            Required,
        >::spec_parse(input, required_default) is Err && U16::<V, Optional>::spec_parse(
            input,
            optional_default,
        ) is Err,
        !is_none_word(input) && parse_integer_spec(input, false, 0, 65535) is Some ==> {
            let v = parse_integer_spec(input, false, 0, 65535)->Some_0 as u16;
            &&& U16::<V, Required>::spec_parse(input, required_default) matches Ok(st)
                && U16::<V, Required>::spec_get(st, required_default) == v && st != Some(
                required_default,
            )
            &&& U16::<V, Optional>::spec_parse(input, optional_default) matches Ok(st)
                && U16::<V, Optional>::spec_get(st, optional_default) == Some(v) && st
                != optional_default
        },
        U16::<V, Required>::spec_parse(
            U16::<V, Required>::spec_format(stored, required_default),
            required_default,
        ) matches Ok(st) && U16::<V, Required>::spec_get(st, required_default) == U16::<
            V,
            Required,
        >::spec_get(stored, required_default),
{
    let x = U16::<V, Required>::spec_get(stored, required_default);
    lemma_int_text_parses_back(x as int, false, 0, 65535);
    lemma_int_text_not_none(x as int);
}

/// A u32 config value.
///
/// # Required (default)
/// Always has a value — falls back to the default when absent.
///
/// # Optional (`U32<V, Optional>`)
/// May be absent — getter returns `Option<u32>`.
pub struct U32<V = NoValidation, O = Required>(PhantomData<(V, O)>);

impl<V: ConfigValidator<Option<u32>>> ConfigType for U32<V, Required> {
    type Stored = Option<u32>;

    type Default = u32;

    type Value = u32;

    open spec fn spec_get(stored: Option<u32>, default: u32) -> u32 {
        match stored {
            Some(v) => v,
            None => default,
        }
    }

    open spec fn spec_parse(input: Seq<char>, default: u32) -> Result<Option<u32>, Seq<char>> {
        if is_none_word(input) {
            Err("'none' is not valid for a required u32 field"@)
        } else {
            match parse_integer_spec(input, false, 0, 4294967295) {
                Some(v) => Ok(normalized(Some(v as u32), Some(default))),
                None => Err(int_error_message("invalid u32: '"@, input)),
            }
        }
    }

    open spec fn spec_format(stored: Option<u32>, default: u32) -> Seq<char> {
        int_text(Self::spec_get(stored, default) as int)
    }

    open spec fn spec_stored_from_default(default: u32) -> Option<u32> {
        Some(default)
    }

    open spec fn spec_reset_value(default: u32) -> Option<u32> {
        None
    }

    open spec fn spec_validate(stored: Option<u32>) -> Option<ConfigErrorView> {
        V::spec_check(stored)
    }

    open spec fn spec_fallback_default() -> u32 {
        0
    }

    proof fn lemma_reset_shows_default(default: u32) {
    }

    fn get(stored: &Option<u32>, default: &u32) -> (r: u32) {
        match stored {
            Some(v) => *v,
            None => *default,
        }
    }

    fn parse(input: &str, default: &u32) -> (r: Result<Option<u32>, ConfigError>) {
        let is_none = is_none_keyword(input);
        if is_none {
            return Err(
                ConfigError::InvalidValue(owned("'none' is not valid for a required u32 field")),
            );
        }
        match parse_in_range(input, false, 0, 4294967295, "invalid u32: '") {
            Ok(v) => Ok(normalize_optional_value(Some(v as u32), Some(*default))),
            Err(e) => Err(e),
        }
    }

    fn format(stored: &Option<u32>, default: &u32) -> (r: String) {
        assert(stored.deep_view() == *stored);
        let v = match stored {
            Some(x) => *x,
            None => *default,
        };
        int_to_string(v as i128)
    }

    fn stored_from_default(default: &u32) -> (r: Option<u32>) {
        assert(Some(*default).deep_view() == Some(*default));
        Some(*default)
    }

    fn validate(stored: &Option<u32>) -> (r: Result<(), ConfigError>) {
        V::validate(stored)
    }

    fn reset_value(default: &u32) -> (r: Option<u32>) {
        None
    }

    fn fallback_default() -> (r: u32) {
        0
    }
}

impl<V: ConfigValidator<Option<u32>>> ConfigType for U32<V, Optional> {
    type Stored = Option<u32>;

    type Default = Option<u32>;

    type Value = Option<u32>;

    open spec fn spec_get(stored: Option<u32>, default: Option<u32>) -> Option<u32> {
        match stored {
            Some(v) => Some(v),
            None => default,
        }
    }

    open spec fn spec_parse(input: Seq<char>, default: Option<u32>) -> Result<
        Option<u32>,
        Seq<char>,
    > {
        if is_none_word(input) {
            Ok(None)
        } else {
            match parse_integer_spec(input, false, 0, 4294967295) {
                Some(v) => Ok(normalized(Some(v as u32), default)),
                None => Err(int_error_message("invalid u32: '"@, input)),
            }
        }
    }

    open spec fn spec_format(stored: Option<u32>, default: Option<u32>) -> Seq<char> {
        match Self::spec_get(stored, default) {
            Some(v) => int_text(v as int),
            None => "none"@,
        }
    }

    open spec fn spec_stored_from_default(default: Option<u32>) -> Option<u32> {
        default
    }

    open spec fn spec_reset_value(default: Option<u32>) -> Option<u32> {
        None
    }

    open spec fn spec_validate(stored: Option<u32>) -> Option<ConfigErrorView> {
        V::spec_check(stored)
    }

    open spec fn spec_fallback_default() -> Option<u32> {
        None
    }

    proof fn lemma_reset_shows_default(default: Option<u32>) {
    }

    fn get(stored: &Option<u32>, default: &Option<u32>) -> (r: Option<u32>) {
        match stored {
            Some(v) => Some(*v),
            None => *default,
        }
    }

    fn parse(input: &str, default: &Option<u32>) -> (r: Result<Option<u32>, ConfigError>) {
        let read = |s: &str| -> (r: Result<u32, ConfigError>)
            ensures
                match parse_integer_spec(s@, false, 0, 4294967295) {
                    Some(v) => r matches Ok(x) && x as int == v,
                    None => r matches Err(e) && e@ == ConfigErrorView::InvalidValue(
                        int_error_message("invalid u32: '"@, s@),
                    ),
                },
            {
                match parse_in_range(s, false, 0, 4294967295, "invalid u32: '") {
                    Ok(v) => Ok(v as u32),
                    Err(e) => Err(e),
                }
            };
        match parse_optional_value(input, read) {
            Ok(parsed) => Ok(normalize_optional_value(parsed, *default)),
            Err(e) => Err(e),
        }
    }

    fn format(stored: &Option<u32>, default: &Option<u32>) -> (r: String) {
        assert(stored.deep_view() == *stored);
        assert(default.deep_view() == *default);
        let v = match stored {
            Some(x) => Some(*x),
            None => *default,
        };
        match v {
            Some(x) => int_to_string(x as i128),
            None => owned("none"),
        }
    }

    fn stored_from_default(default: &Option<u32>) -> (r: Option<u32>) {
        *default
    }

    fn validate(stored: &Option<u32>) -> (r: Result<(), ConfigError>) {
        V::validate(stored)
    }

    fn reset_value(default: &Option<u32>) -> (r: Option<u32>) {
        None
    }

    fn fallback_default() -> (r: Option<u32>) {
        None
    }
}

/// Laws of `U32` fields: `none` is refused by a required field and clears an optional one
/// back to its default; a number in range is read back by the getter and is never stored
/// when it equals the default; and the displayed text of a stored value, set again, gives
/// the same value.
pub proof fn lemma_u32_reads_back<V: ConfigValidator<Option<u32>>>(
    input: Seq<char>,
    required_default: u32,
    optional_default: Option<u32>,
    stored: Option<u32>,
)
    ensures
        is_none_word(input) ==> U32::<V, Required>::spec_parse(input, required_default) is Err,
        is_none_word(input) ==> (U32::<V, Optional>::spec_parse(input, optional_default) matches Ok(st)
            && U32::<V, Optional>::spec_get(st, optional_default) == optional_default),
        !is_none_word(input) && parse_integer_spec(input, false, 0, 4294967295) is None ==> U32::<
            V,
            Required,
        >::spec_parse(input, required_default) is Err && U32::<V, Optional>::spec_parse(
            input,
            optional_default,
        ) is Err,
        !is_none_word(input) && parse_integer_spec(input, false, 0, 4294967295) is Some ==> {
            let v = parse_integer_spec(input, false, 0, 4294967295)->Some_0 as u32;
            &&& U32::<V, Required>::spec_parse(input, required_default) matches Ok(st)
                && U32::<V, Required>::spec_get(st, required_default) == v && st != Some(
                required_default,
            )
            &&& U32::<V, Optional>::spec_parse(input, optional_default) matches Ok(st)
                && U32::<V, Optional>::spec_get(st, optional_default) == Some(v) && st
                != optional_default
        },
        U32::<V, Required>::spec_parse(
            U32::<V, Required>::spec_format(stored, required_default),
            required_default,
        ) matches Ok(st) && U32::<V, Required>::spec_get(st, required_default) == U32::<
            V,
            Required,
        >::spec_get(stored, required_default),
{
    let x = U32::<V, Required>::spec_get(stored, required_default);
    lemma_int_text_parses_back(x as int, false, 0, 4294967295);
    lemma_int_text_not_none(x as int);
}

/// A u64 config value.
///
/// # Required (default)
/// Always has a value — falls back to the default when absent.
///
/// # Optional (`U64<V, Optional>`)
/// May be absent — getter returns `Option<u64>`.
pub struct U64<V = NoValidation, O = Required>(PhantomData<(V, O)>);

impl<V: ConfigValidator<Option<u64>>> ConfigType for U64<V, Required> {
    type Stored = Option<u64>;

    type Default = u64;

    type Value = u64;

    open spec fn spec_get(stored: Option<u64>, default: u64) -> u64 {
        match stored {
            Some(v) => v,
            None => default,
        }
    }

    open spec fn spec_parse(input: Seq<char>, default: u64) -> Result<Option<u64>, Seq<char>> {
        if is_none_word(input) {
            Err("'none' is not valid for a required u64 field"@)
        } else {
            match parse_integer_spec(input, false, 0, 18446744073709551615) {
                Some(v) => Ok(normalized(Some(v as u64), Some(default))),
                None => Err(int_error_message("invalid u64: '"@, input)),
            }
        }
    }

    open spec fn spec_format(stored: Option<u64>, default: u64) -> Seq<char> {
        int_text(Self::spec_get(stored, default) as int)
    }

    open spec fn spec_stored_from_default(default: u64) -> Option<u64> {
        Some(default)
    }

    open spec fn spec_reset_value(default: u64) -> Option<u64> {
        None
    }

    open spec fn spec_validate(stored: Option<u64>) -> Option<ConfigErrorView> {
        V::spec_check(stored)
    }

    open spec fn spec_fallback_default() -> u64 {
        0
    }

    proof fn lemma_reset_shows_default(default: u64) {
    }

    fn get(stored: &Option<u64>, default: &u64) -> (r: u64) {
        match stored {
            Some(v) => *v,
            None => *default,
        }
    }

    fn parse(input: &str, default: &u64) -> (r: Result<Option<u64>, ConfigError>) {
        let is_none = is_none_keyword(input);
        if is_none {
            return Err(
                ConfigError::InvalidValue(owned("'none' is not valid for a required u64 field")),
            );
        }
        match parse_in_range(input, false, 0, 18446744073709551615, "invalid u64: '") {
            Ok(v) => Ok(normalize_optional_value(Some(v as u64), Some(*default))),
            Err(e) => Err(e),
        }
    }

    fn format(stored: &Option<u64>, default: &u64) -> (r: String) {
        assert(stored.deep_view() == *stored);
        let v = match stored {
            Some(x) => *x,
            None => *default,
        };
        int_to_string(v as i128)
    }

    fn stored_from_default(default: &u64) -> (r: Option<u64>) {
        assert(Some(*default).deep_view() == Some(*default));
        Some(*default)
    }

    fn validate(stored: &Option<u64>) -> (r: Result<(), ConfigError>) {
        V::validate(stored)
    }

    fn reset_value(default: &u64) -> (r: Option<u64>) {
        None
    }

    fn fallback_default() -> (r: u64) {
        0
    }
}

impl<V: ConfigValidator<Option<u64>>> ConfigType for U64<V, Optional> {
    type Stored = Option<u64>;

    type Default = Option<u64>;

    type Value = Option<u64>;

    open spec fn spec_get(stored: Option<u64>, default: Option<u64>) -> Option<u64> {
        match stored {
            Some(v) => Some(v),
            None => default,
        }
    }

    open spec fn spec_parse(input: Seq<char>, default: Option<u64>) -> Result<
        Option<u64>,
        Seq<char>,
    > {
        if is_none_word(input) {
            Ok(None)
        } else {
            match parse_integer_spec(input, false, 0, 18446744073709551615) {
                Some(v) => Ok(normalized(Some(v as u64), default)),
                None => Err(int_error_message("invalid u64: '"@, input)),
            }
        }
    }

    open spec fn spec_format(stored: Option<u64>, default: Option<u64>) -> Seq<char> {
        match Self::spec_get(stored, default) {
            Some(v) => int_text(v as int),
            None => "none"@,
        }
    }

    open spec fn spec_stored_from_default(default: Option<u64>) -> Option<u64> {
        default
    }

    open spec fn spec_reset_value(default: Option<u64>) -> Option<u64> {
        None
    }

    open spec fn spec_validate(stored: Option<u64>) -> Option<ConfigErrorView> {
        V::spec_check(stored)
    }

    open spec fn spec_fallback_default() -> Option<u64> {
        None
    }

    proof fn lemma_reset_shows_default(default: Option<u64>) {
    }

    fn get(stored: &Option<u64>, default: &Option<u64>) -> (r: Option<u64>) {
        match stored {
            Some(v) => Some(*v),
            None => *default,
        }
    }

    fn parse(input: &str, default: &Option<u64>) -> (r: Result<Option<u64>, ConfigError>) {
        let read = |s: &str| -> (r: Result<u64, ConfigError>)
            ensures
                match parse_integer_spec(s@, false, 0, 18446744073709551615) {
                    Some(v) => r matches Ok(x) && x as int == v,
                    None => r matches Err(e) && e@ == ConfigErrorView::InvalidValue(
                        int_error_message("invalid u64: '"@, s@),
                    ),
                },
            {
                match parse_in_range(s, false, 0, 18446744073709551615, "invalid u64: '") {
                    Ok(v) => Ok(v as u64),
                    Err(e) => Err(e),
                }
            };
        match parse_optional_value(input, read) {
            Ok(parsed) => Ok(normalize_optional_value(parsed, *default)),
            Err(e) => Err(e),
        }
    }

    fn format(stored: &Option<u64>, default: &Option<u64>) -> (r: String) {
        assert(stored.deep_view() == *stored);
        assert(default.deep_view() == *default);
        let v = match stored {
            Some(x) => Some(*x),
            None => *default,
        };
        match v {
            Some(x) => int_to_string(x as i128),
            None => owned("none"),
        }
    }

    fn stored_from_default(default: &Option<u64>) -> (r: Option<u64>) {
        *default
    }

    fn validate(stored: &Option<u64>) -> (r: Result<(), ConfigError>) {
        V::validate(stored)
    }

    fn reset_value(default: &Option<u64>) -> (r: Option<u64>) {
        None
    }

    fn fallback_default() -> (r: Option<u64>) {
        None
    }
}

/// Laws of `U64` fields: `none` is refused by a required field and clears an optional one
/// back to its default; a number in range is read back by the getter and is never stored
/// when it equals the default; and the displayed text of a stored value, set again, gives
/// the same value.
pub proof fn lemma_u64_reads_back<V: ConfigValidator<Option<u64>>>(
    input: Seq<char>,
    required_default: u64,
    optional_default: Option<u64>,
    stored: Option<u64>,
)
    ensures
        is_none_word(input) ==> U64::<V, Required>::spec_parse(input, required_default) is Err,
        is_none_word(input) ==> (U64::<V, Optional>::spec_parse(input, optional_default) matches Ok(st)
            && U64::<V, Optional>::spec_get(st, optional_default) == optional_default),
        !is_none_word(input) && parse_integer_spec(input, false, 0, 18446744073709551615) is None ==> U64::<
            V,
            Required,
        >::spec_parse(input, required_default) is Err && U64::<V, Optional>::spec_parse(
            input,
            optional_default,
        ) is Err,
        !is_none_word(input) && parse_integer_spec(input, false, 0, 18446744073709551615) is Some ==> {
            let v = parse_integer_spec(input, false, 0, 18446744073709551615)->Some_0 as u64;
            &&& U64::<V, Required>::spec_parse(input, required_default) matches Ok(st)
                && U64::<V, Required>::spec_get(st, required_default) == v && st != Some(
                required_default,
            )
            &&& U64::<V, Optional>::spec_parse(input, optional_default) matches Ok(st)
                && U64::<V, Optional>::spec_get(st, optional_default) == Some(v) && st
                != optional_default
        },
        U64::<V, Required>::spec_parse(
            U64::<V, Required>::spec_format(stored, required_default),
            required_default,
        ) matches Ok(st) && U64::<V, Required>::spec_get(st, required_default) == U64::<
            V,
            Required,
        >::spec_get(stored, required_default),
{
    let x = U64::<V, Required>::spec_get(stored, required_default);
    lemma_int_text_parses_back(x as int, false, 0, 18446744073709551615);
    lemma_int_text_not_none(x as int);
}

/// A i8 config value.
///
/// # Required (default)
/// Always has a value — falls back to the default when absent.
///
/// # Optional (`I8<V, Optional>`)
/// May be absent — getter returns `Option<i8>`.
pub struct I8<V = NoValidation, O = Required>(PhantomData<(V, O)>);

impl<V: ConfigValidator<Option<i8>>> ConfigType for I8<V, Required> {
    type Stored = Option<i8>;

    type Default = i8;

    type Value = i8;

    open spec fn spec_get(stored: Option<i8>, default: i8) -> i8 {
        match stored {
            Some(v) => v,
            None => default,
        }
    }

    open spec fn spec_parse(input: Seq<char>, default: i8) -> Result<Option<i8>, Seq<char>> {
        if is_none_word(input) {
            Err("'none' is not valid for a required i8 field"@)
        } else {
            match parse_integer_spec(input, true, -128, 127) {
                Some(v) => Ok(normalized(Some(v as i8), Some(default))),
                None => Err(int_error_message("invalid i8: '"@, input)),
            }
        }
    }

    open spec fn spec_format(stored: Option<i8>, default: i8) -> Seq<char> {
        int_text(Self::spec_get(stored, default) as int)
    }

    open spec fn spec_stored_from_default(default: i8) -> Option<i8> {
        Some(default)
    }

    open spec fn spec_reset_value(default: i8) -> Option<i8> {
        None
    }

    open spec fn spec_validate(stored: Option<i8>) -> Option<ConfigErrorView> {
        V::spec_check(stored)
    }

    open spec fn spec_fallback_default() -> i8 {
        0
    }

    proof fn lemma_reset_shows_default(default: i8) {
    }

    fn get(stored: &Option<i8>, default: &i8) -> (r: i8) {
        match stored {
            Some(v) => *v,
            None => *default,
        }
    }

    fn parse(input: &str, default: &i8) -> (r: Result<Option<i8>, ConfigError>) {
        let is_none = is_none_keyword(input);
        if is_none {
            return Err(
                ConfigError::InvalidValue(owned("'none' is not valid for a required i8 field")),
            );
        }
        match parse_in_range(input, true, -128, 127, "invalid i8: '") {
            Ok(v) => Ok(normalize_optional_value(Some(v as i8), Some(*default))),
            Err(e) => Err(e),
        }
    }

    fn format(stored: &Option<i8>, default: &i8) -> (r: String) {
        assert(stored.deep_view() == *stored);
        let v = match stored {
            Some(x) => *x,
            None => *default,
        };
        int_to_string(v as i128)
    }

    fn stored_from_default(default: &i8) -> (r: Option<i8>) {
        assert(Some(*default).deep_view() == Some(*default));
        Some(*default)
    }

    fn validate(stored: &Option<i8>) -> (r: Result<(), ConfigError>) {
        V::validate(stored)
    }

    fn reset_value(default: &i8) -> (r: Option<i8>) {
        None
    }

    fn fallback_default() -> (r: i8) {
        0
    }
}

impl<V: ConfigValidator<Option<i8>>> ConfigType for I8<V, Optional> {
    type Stored = Option<i8>;

    type Default = Option<i8>;

    type Value = Option<i8>;

    open spec fn spec_get(stored: Option<i8>, default: Option<i8>) -> Option<i8> {
        match stored {
            Some(v) => Some(v),
            None => default,
        }
    }

    open spec fn spec_parse(input: Seq<char>, default: Option<i8>) -> Result<
        Option<i8>,
        Seq<char>,
    > {
        if is_none_word(input) {
            Ok(None)
        } else {
            match parse_integer_spec(input, true, -128, 127) {
                Some(v) => Ok(normalized(Some(v as i8), default)),
                None => Err(int_error_message("invalid i8: '"@, input)),
            }
        }
    }

    open spec fn spec_format(stored: Option<i8>, default: Option<i8>) -> Seq<char> {
        match Self::spec_get(stored, default) {
            Some(v) => int_text(v as int),
            None => "none"@,
        }
    }

    open spec fn spec_stored_from_default(default: Option<i8>) -> Option<i8> {
        default
    }

    open spec fn spec_reset_value(default: Option<i8>) -> Option<i8> {
        None
    }

    open spec fn spec_validate(stored: Option<i8>) -> Option<ConfigErrorView> {
        V::spec_check(stored)
    }

    open spec fn spec_fallback_default() -> Option<i8> {
        None
    }

    proof fn lemma_reset_shows_default(default: Option<i8>) {
    }

    fn get(stored: &Option<i8>, default: &Option<i8>) -> (r: Option<i8>) {
        match stored {
            Some(v) => Some(*v),
            None => *default,
        }
    }

    fn parse(input: &str, default: &Option<i8>) -> (r: Result<Option<i8>, ConfigError>) {
        let read = |s: &str| -> (r: Result<i8, ConfigError>)
            ensures
                match parse_integer_spec(s@, true, -128, 127) {
                    Some(v) => r matches Ok(x) && x as int == v,
                    None => r matches Err(e) && e@ == ConfigErrorView::InvalidValue(
                        int_error_message("invalid i8: '"@, s@),
                    ),
                },
            {
                match parse_in_range(s, true, -128, 127, "invalid i8: '") {
                    Ok(v) => Ok(v as i8),
                    Err(e) => Err(e),
                }
            };
        match parse_optional_value(input, read) {
            Ok(parsed) => Ok(normalize_optional_value(parsed, *default)),
            Err(e) => Err(e),
        }
    }

    fn format(stored: &Option<i8>, default: &Option<i8>) -> (r: String) {
        assert(stored.deep_view() == *stored);
        assert(default.deep_view() == *default);
        let v = match stored {
            Some(x) => Some(*x),
            None => *default,
        };
        match v {
            Some(x) => int_to_string(x as i128),
            None => owned("none"),
        }
    }

    fn stored_from_default(default: &Option<i8>) -> (r: Option<i8>) {
        *default
    }

    fn validate(stored: &Option<i8>) -> (r: Result<(), ConfigError>) {
        V::validate(stored)
    }

    fn reset_value(default: &Option<i8>) -> (r: Option<i8>) {
        None
    }

    fn fallback_default() -> (r: Option<i8>) {
        None
    }
}

/// Laws of `I8` fields: `none` is refused by a required field and clears an optional one
/// back to its default; a number in range is read back by the getter and is never stored
/// when it equals the default; and the displayed text of a stored value, set again, gives
/// the same value.
pub proof fn lemma_i8_reads_back<V: ConfigValidator<Option<i8>>>(
    input: Seq<char>,
    required_default: i8,
    optional_default: Option<i8>,
    stored: Option<i8>,
)
    ensures
        is_none_word(input) ==> I8::<V, Required>::spec_parse(input, required_default) is Err,
        is_none_word(input) ==> (I8::<V, Optional>::spec_parse(input, optional_default) matches Ok(st)
            && I8::<V, Optional>::spec_get(st, optional_default) == optional_default),
        !is_none_word(input) && parse_integer_spec(input, true, -128, 127) is None ==> I8::<
            V,
            Required,
        >::spec_parse(input, required_default) is Err && I8::<V, Optional>::spec_parse(
            input,
            optional_default,
        ) is Err,
        !is_none_word(input) && parse_integer_spec(input, true, -128, 127) is Some ==> {
            let v = parse_integer_spec(input, true, -128, 127)->Some_0 as i8;
            &&& I8::<V, Required>::spec_parse(input, required_default) matches Ok(st)
                && I8::<V, Required>::spec_get(st, required_default) == v && st != Some(
                required_default,
            )
            &&& I8::<V, Optional>::spec_parse(input, optional_default) matches Ok(st)
                && I8::<V, Optional>::spec_get(st, optional_default) == Some(v) && st
                != optional_default
        },
        I8::<V, Required>::spec_parse(
            I8::<V, Required>::spec_format(stored, required_default),
            required_default,
        ) matches Ok(st) && I8::<V, Required>::spec_get(st, required_default) == I8::<
            V,
            Required,
        >::spec_get(stored, required_default),
{
    let x = I8::<V, Required>::spec_get(stored, required_default);
    lemma_int_text_parses_back(x as int, true, -128, 127);
    lemma_int_text_not_none(x as int);
}

/// A i16 config value.
///
/// # Required (default)
/// Always has a value — falls back to the default when absent.
///
/// # Optional (`I16<V, Optional>`)
/// May be absent — getter returns `Option<i16>`.
pub struct I16<V = NoValidation, O = Required>(PhantomData<(V, O)>);

impl<V: ConfigValidator<Option<i16>>> ConfigType for I16<V, Required> {
    type Stored = Option<i16>;

    type Default = i16;

    type Value = i16;

    open spec fn spec_get(stored: Option<i16>, default: i16) -> i16 {
        match stored {
            Some(v) => v,
            None => default,
        }
    }

    open spec fn spec_parse(input: Seq<char>, default: i16) -> Result<Option<i16>, Seq<char>> {
        if is_none_word(input) {
            Err("'none' is not valid for a required i16 field"@)
        } else {
            match parse_integer_spec(input, true, -32768, 32767) {
                Some(v) => Ok(normalized(Some(v as i16), Some(default))),
                None => Err(int_error_message("invalid i16: '"@, input)),
            }
        }
    }

    open spec fn spec_format(stored: Option<i16>, default: i16) -> Seq<char> {
        int_text(Self::spec_get(stored, default) as int)
    }

    open spec fn spec_stored_from_default(default: i16) -> Option<i16> {
        Some(default)
    }

    open spec fn spec_reset_value(default: i16) -> Option<i16> {
        None
    }

    open spec fn spec_validate(stored: Option<i16>) -> Option<ConfigErrorView> {
        V::spec_check(stored)
    }

    open spec fn spec_fallback_default() -> i16 {
        0
    }

    proof fn lemma_reset_shows_default(default: i16) {
    }

    fn get(stored: &Option<i16>, default: &i16) -> (r: i16) {
        match stored {
            Some(v) => *v,
            None => *default,
        }
    }

    fn parse(input: &str, default: &i16) -> (r: Result<Option<i16>, ConfigError>) {
        let is_none = is_none_keyword(input);
        if is_none {
            return Err(
                ConfigError::InvalidValue(owned("'none' is not valid for a required i16 field")),
            );
        }
        match parse_in_range(input, true, -32768, 32767, "invalid i16: '") {
            Ok(v) => Ok(normalize_optional_value(Some(v as i16), Some(*default))),
            Err(e) => Err(e),
        }
    }

    fn format(stored: &Option<i16>, default: &i16) -> (r: String) {
        assert(stored.deep_view() == *stored);
        let v = match stored {
            Some(x) => *x,
            None => *default,
        };
        int_to_string(v as i128)
    }

    fn stored_from_default(default: &i16) -> (r: Option<i16>) {
        assert(Some(*default).deep_view() == Some(*default));
        Some(*default)
    }

    fn validate(stored: &Option<i16>) -> (r: Result<(), ConfigError>) {
        V::validate(stored)
    }

    fn reset_value(default: &i16) -> (r: Option<i16>) {
        None
    }

    fn fallback_default() -> (r: i16) {
        0
    }
}

impl<V: ConfigValidator<Option<i16>>> ConfigType for I16<V, Optional> {
    type Stored = Option<i16>;

    type Default = Option<i16>;

    type Value = Option<i16>;

    open spec fn spec_get(stored: Option<i16>, default: Option<i16>) -> Option<i16> {
        match stored {
            Some(v) => Some(v),
            None => default,
        }
    }

    open spec fn spec_parse(input: Seq<char>, default: Option<i16>) -> Result<
        Option<i16>,
        Seq<char>,
    > {
        if is_none_word(input) {
            Ok(None)
        } else {
            match parse_integer_spec(input, true, -32768, 32767) {
                Some(v) => Ok(normalized(Some(v as i16), default)),
                None => Err(int_error_message("invalid i16: '"@, input)),
            }
        }
    }

    open spec fn spec_format(stored: Option<i16>, default: Option<i16>) -> Seq<char> {
        match Self::spec_get(stored, default) {
            Some(v) => int_text(v as int),
            None => "none"@,
        }
    }

    open spec fn spec_stored_from_default(default: Option<i16>) -> Option<i16> {
        default
    }

    open spec fn spec_reset_value(default: Option<i16>) -> Option<i16> {
        None
    }

    open spec fn spec_validate(stored: Option<i16>) -> Option<ConfigErrorView> {
        V::spec_check(stored)
    }

    open spec fn spec_fallback_default() -> Option<i16> {
        None
    }

    proof fn lemma_reset_shows_default(default: Option<i16>) {
    }

    fn get(stored: &Option<i16>, default: &Option<i16>) -> (r: Option<i16>) {
        match stored {
            Some(v) => Some(*v),
            None => *default,
        }
    }

    fn parse(input: &str, default: &Option<i16>) -> (r: Result<Option<i16>, ConfigError>) {
        let read = |s: &str| -> (r: Result<i16, ConfigError>)
            ensures
                match parse_integer_spec(s@, true, -32768, 32767) {
                    Some(v) => r matches Ok(x) && x as int == v,
                    None => r matches Err(e) && e@ == ConfigErrorView::InvalidValue(
                        int_error_message("invalid i16: '"@, s@),
                    ),
                },
            {
                match parse_in_range(s, true, -32768, 32767, "invalid i16: '") {
                    Ok(v) => Ok(v as i16),
                    Err(e) => Err(e),
                }
            };
        match parse_optional_value(input, read) {
            Ok(parsed) => Ok(normalize_optional_value(parsed, *default)),
            Err(e) => Err(e),
        }
    }

    fn format(stored: &Option<i16>, default: &Option<i16>) -> (r: String) {
        assert(stored.deep_view() == *stored);
        assert(default.deep_view() == *default);
        let v = match stored {
            Some(x) => Some(*x),
            None => *default,
        };
        match v {
            Some(x) => int_to_string(x as i128),
            None => owned("none"),
        }
    }

    fn stored_from_default(default: &Option<i16>) -> (r: Option<i16>) {
        *default
    }

    fn validate(stored: &Option<i16>) -> (r: Result<(), ConfigError>) {
        V::validate(stored)
    }

    fn reset_value(default: &Option<i16>) -> (r: Option<i16>) {
        None
    }

    fn fallback_default() -> (r: Option<i16>) {
        None
    }
}

/// Laws of `I16` fields: `none` is refused by a required field and clears an optional one
/// back to its default; a number in range is read back by the getter and is never stored
/// when it equals the default; and the displayed text of a stored value, set again, gives
/// the same value.
pub proof fn lemma_i16_reads_back<V: ConfigValidator<Option<i16>>>(
    input: Seq<char>,
    required_default: i16,
    optional_default: Option<i16>,
    stored: Option<i16>,
)
    ensures
        is_none_word(input) ==> I16::<V, Required>::spec_parse(input, required_default) is Err,
        is_none_word(input) ==> (I16::<V, Optional>::spec_parse(input, optional_default) matches Ok(st)
            && I16::<V, Optional>::spec_get(st, optional_default) == optional_default),
        !is_none_word(input) && parse_integer_spec(input, true, -32768, 32767) is None ==> I16::<
            V,
            Required,
        >::spec_parse(input, required_default) is Err && I16::<V, Optional>::spec_parse(
            input,
            optional_default,
        ) is Err,
        !is_none_word(input) && parse_integer_spec(input, true, -32768, 32767) is Some ==> {
            let v = parse_integer_spec(input, true, -32768, 32767)->Some_0 as i16;
            &&& I16::<V, Required>::spec_parse(input, required_default) matches Ok(st)
                && I16::<V, Required>::spec_get(st, required_default) == v && st != Some(
                required_default,
            )
            &&& I16::<V, Optional>::spec_parse(input, optional_default) matches Ok(st)
                && I16::<V, Optional>::spec_get(st, optional_default) == Some(v) && st
                != optional_default
        },
        I16::<V, Required>::spec_parse(
            I16::<V, Required>::spec_format(stored, required_default),
            required_default,
        ) matches Ok(st) && I16::<V, Required>::spec_get(st, required_default) == I16::<
            V,
            Required,
        >::spec_get(stored, required_default),
{
    let x = I16::<V, Required>::spec_get(stored, required_default);
    lemma_int_text_parses_back(x as int, true, -32768, 32767);
    lemma_int_text_not_none(x as int);
}

/// A i32 config value.
///
/// # Required (default)
/// Always has a value — falls back to the default when absent.
///
/// # Optional (`I32<V, Optional>`)
/// May be absent — getter returns `Option<i32>`.
pub struct I32<V = NoValidation, O = Required>(PhantomData<(V, O)>);

impl<V: ConfigValidator<Option<i32>>> ConfigType for I32<V, Required> {
    type Stored = Option<i32>;

    type Default = i32;

    type Value = i32;

    open spec fn spec_get(stored: Option<i32>, default: i32) -> i32 {
        match stored {
            Some(v) => v,
            None => default,
        }
    }

    open spec fn spec_parse(input: Seq<char>, default: i32) -> Result<Option<i32>, Seq<char>> {
        if is_none_word(input) {
            Err("'none' is not valid for a required i32 field"@)
        } else {
            match parse_integer_spec(input, true, -2147483648, 2147483647) {
                Some(v) => Ok(normalized(Some(v as i32), Some(default))),
                None => Err(int_error_message("invalid i32: '"@, input)),
            }
        }
    }

    open spec fn spec_format(stored: Option<i32>, default: i32) -> Seq<char> {
        int_text(Self::spec_get(stored, default) as int)
    }

    open spec fn spec_stored_from_default(default: i32) -> Option<i32> {
        Some(default)
    }

    open spec fn spec_reset_value(default: i32) -> Option<i32> {
        None
    }

    open spec fn spec_validate(stored: Option<i32>) -> Option<ConfigErrorView> {
        V::spec_check(stored)
    }

    open spec fn spec_fallback_default() -> i32 {
        0
    }

    proof fn lemma_reset_shows_default(default: i32) {
    }

    fn get(stored: &Option<i32>, default: &i32) -> (r: i32) {
        match stored {
            Some(v) => *v,
            None => *default,
        }
    }

    fn parse(input: &str, default: &i32) -> (r: Result<Option<i32>, ConfigError>) {
        let is_none = is_none_keyword(input);
        if is_none {
            return Err(
                ConfigError::InvalidValue(owned("'none' is not valid for a required i32 field")),
            );
        }
        match parse_in_range(input, true, -2147483648, 2147483647, "invalid i32: '") {
            Ok(v) => Ok(normalize_optional_value(Some(v as i32), Some(*default))),
            Err(e) => Err(e),
        }
    }

    fn format(stored: &Option<i32>, default: &i32) -> (r: String) {
        assert(stored.deep_view() == *stored);
        let v = match stored {
            Some(x) => *x,
            None => *default,
        };
        int_to_string(v as i128)
    }

    fn stored_from_default(default: &i32) -> (r: Option<i32>) {
        assert(Some(*default).deep_view() == Some(*default));
        Some(*default)
    }

    fn validate(stored: &Option<i32>) -> (r: Result<(), ConfigError>) {
        V::validate(stored)
    }

    fn reset_value(default: &i32) -> (r: Option<i32>) {
        None
    }

    fn fallback_default() -> (r: i32) {
        0
    }
}

impl<V: ConfigValidator<Option<i32>>> ConfigType for I32<V, Optional> {
    type Stored = Option<i32>;

    type Default = Option<i32>;

    type Value = Option<i32>;

    open spec fn spec_get(stored: Option<i32>, default: Option<i32>) -> Option<i32> {
        match stored {
            Some(v) => Some(v),
            None => default,
        }
    }

    open spec fn spec_parse(input: Seq<char>, default: Option<i32>) -> Result<
        Option<i32>,
        Seq<char>,
    > {
        if is_none_word(input) {
            Ok(None)
        } else {
            match parse_integer_spec(input, true, -2147483648, 2147483647) {
                Some(v) => Ok(normalized(Some(v as i32), default)),
                None => Err(int_error_message("invalid i32: '"@, input)),
            }
        }
    }

    open spec fn spec_format(stored: Option<i32>, default: Option<i32>) -> Seq<char> {
        match Self::spec_get(stored, default) {
            Some(v) => int_text(v as int),
            None => "none"@,
        }
    }

    open spec fn spec_stored_from_default(default: Option<i32>) -> Option<i32> {
        default
    }

    open spec fn spec_reset_value(default: Option<i32>) -> Option<i32> {
        None
    }

    open spec fn spec_validate(stored: Option<i32>) -> Option<ConfigErrorView> {
        V::spec_check(stored)
    }

    open spec fn spec_fallback_default() -> Option<i32> {
        None
    }

    proof fn lemma_reset_shows_default(default: Option<i32>) {
    }

    fn get(stored: &Option<i32>, default: &Option<i32>) -> (r: Option<i32>) {
        match stored {
            Some(v) => Some(*v),
            None => *default,
        }
    }

    fn parse(input: &str, default: &Option<i32>) -> (r: Result<Option<i32>, ConfigError>) {
        let read = |s: &str| -> (r: Result<i32, ConfigError>)
            ensures
                match parse_integer_spec(s@, true, -2147483648, 2147483647) {
                    Some(v) => r matches Ok(x) && x as int == v,
                    None => r matches Err(e) && e@ == ConfigErrorView::InvalidValue(
                        int_error_message("invalid i32: '"@, s@),
                    ),
                },
            {
                match parse_in_range(s, true, -2147483648, 2147483647, "invalid i32: '") {
                    Ok(v) => Ok(v as i32),
                    Err(e) => Err(e),
                }
            };
        match parse_optional_value(input, read) {
            Ok(parsed) => Ok(normalize_optional_value(parsed, *default)),
            Err(e) => Err(e),
        }
    }

    fn format(stored: &Option<i32>, default: &Option<i32>) -> (r: String) {
        assert(stored.deep_view() == *stored);
        assert(default.deep_view() == *default);
        let v = match stored {
            Some(x) => Some(*x),
            None => *default,
        };
        match v {
            Some(x) => int_to_string(x as i128),
            None => owned("none"),
        }
    }

    fn stored_from_default(default: &Option<i32>) -> (r: Option<i32>) {
        *default
    }

    fn validate(stored: &Option<i32>) -> (r: Result<(), ConfigError>) {
        V::validate(stored)
    }

    fn reset_value(default: &Option<i32>) -> (r: Option<i32>) {
        None
    }

    fn fallback_default() -> (r: Option<i32>) {
        None
    }
}

/// Laws of `I32` fields: `none` is refused by a required field and clears an optional one
/// back to its default; a number in range is read back by the getter and is never stored
/// when it equals the default; and the displayed text of a stored value, set again, gives
/// the same value.
pub proof fn lemma_i32_reads_back<V: ConfigValidator<Option<i32>>>(
    input: Seq<char>,
    required_default: i32,
    optional_default: Option<i32>,
    stored: Option<i32>,
)
    ensures
        is_none_word(input) ==> I32::<V, Required>::spec_parse(input, required_default) is Err,
        is_none_word(input) ==> (I32::<V, Optional>::spec_parse(input, optional_default) matches Ok(st)
            && I32::<V, Optional>::spec_get(st, optional_default) == optional_default),
        !is_none_word(input) && parse_integer_spec(input, true, -2147483648, 2147483647) is None ==> I32::<
            V,
            Required,
        >::spec_parse(input, required_default) is Err && I32::<V, Optional>::spec_parse(
            input,
            optional_default,
        ) is Err,
        !is_none_word(input) && parse_integer_spec(input, true, -2147483648, 2147483647) is Some ==> {
            let v = parse_integer_spec(input, true, -2147483648, 2147483647)->Some_0 as i32;
            &&& I32::<V, Required>::spec_parse(input, required_default) matches Ok(st)
                && I32::<V, Required>::spec_get(st, required_default) == v && st != Some(
                required_default,
            )
            &&& I32::<V, Optional>::spec_parse(input, optional_default) matches Ok(st)
                && I32::<V, Optional>::spec_get(st, optional_default) == Some(v) && st
                != optional_default
        },
        I32::<V, Required>::spec_parse(
            I32::<V, Required>::spec_format(stored, required_default),
            required_default,
        ) matches Ok(st) && I32::<V, Required>::spec_get(st, required_default) == I32::<
            V,
            Required,
        >::spec_get(stored, required_default),
{
    let x = I32::<V, Required>::spec_get(stored, required_default);
    lemma_int_text_parses_back(x as int, true, -2147483648, 2147483647);
    lemma_int_text_not_none(x as int);
}

/// A i64 config value.
///
/// # Required (default)
/// Always has a value — falls back to the default when absent.
///
/// # Optional (`I64<V, Optional>`)
/// May be absent — getter returns `Option<i64>`.
pub struct I64<V = NoValidation, O = Required>(PhantomData<(V, O)>);

impl<V: ConfigValidator<Option<i64>>> ConfigType for I64<V, Required> {
    type Stored = Option<i64>;

    type Default = i64;

    type Value = i64;

    open spec fn spec_get(stored: Option<i64>, default: i64) -> i64 {
        match stored {
            Some(v) => v,
            None => default,
        }
    }

    open spec fn spec_parse(input: Seq<char>, default: i64) -> Result<Option<i64>, Seq<char>> {
        if is_none_word(input) {
            Err("'none' is not valid for a required i64 field"@)
        } else {
            match parse_integer_spec(input, true, -9223372036854775808, 9223372036854775807) {
                Some(v) => Ok(normalized(Some(v as i64), Some(default))),
                None => Err(int_error_message("invalid i64: '"@, input)),
            }
        }
    }

    open spec fn spec_format(stored: Option<i64>, default: i64) -> Seq<char> {
        int_text(Self::spec_get(stored, default) as int)
    }

    open spec fn spec_stored_from_default(default: i64) -> Option<i64> {
        Some(default)
    }

    open spec fn spec_reset_value(default: i64) -> Option<i64> {
        None
    }

    open spec fn spec_validate(stored: Option<i64>) -> Option<ConfigErrorView> {
        V::spec_check(stored)
    }

    open spec fn spec_fallback_default() -> i64 {
        0
    }

    proof fn lemma_reset_shows_default(default: i64) {
    }

    fn get(stored: &Option<i64>, default: &i64) -> (r: i64) {
        match stored {
            Some(v) => *v,
            None => *default,
        }
    }

    fn parse(input: &str, default: &i64) -> (r: Result<Option<i64>, ConfigError>) {
        let is_none = is_none_keyword(input);
        if is_none {
            return Err(
                ConfigError::InvalidValue(owned("'none' is not valid for a required i64 field")),
            );
        }
        match parse_in_range(input, true, -9223372036854775808, 9223372036854775807, "invalid i64: '") {
            Ok(v) => Ok(normalize_optional_value(Some(v as i64), Some(*default))),
            Err(e) => Err(e),
        }
    }

    fn format(stored: &Option<i64>, default: &i64) -> (r: String) {
        assert(stored.deep_view() == *stored);
        let v = match stored {
            Some(x) => *x,
            None => *default,
        };
        int_to_string(v as i128)
    }

    fn stored_from_default(default: &i64) -> (r: Option<i64>) {
        assert(Some(*default).deep_view() == Some(*default));
        Some(*default)
    }

    fn validate(stored: &Option<i64>) -> (r: Result<(), ConfigError>) {
        V::validate(stored)
    }

    fn reset_value(default: &i64) -> (r: Option<i64>) {
        None
    }

    fn fallback_default() -> (r: i64) {
        0
    }
}

impl<V: ConfigValidator<Option<i64>>> ConfigType for I64<V, Optional> {
    type Stored = Option<i64>;

    type Default = Option<i64>;

    type Value = Option<i64>;

    open spec fn spec_get(stored: Option<i64>, default: Option<i64>) -> Option<i64> {
        match stored {
            Some(v) => Some(v),
            None => default,
        }
    }

    open spec fn spec_parse(input: Seq<char>, default: Option<i64>) -> Result<
        Option<i64>,
        Seq<char>,
    > {
        if is_none_word(input) {
            Ok(None)
        } else {
            match parse_integer_spec(input, true, -9223372036854775808, 9223372036854775807) {
                Some(v) => Ok(normalized(Some(v as i64), default)),
                None => Err(int_error_message("invalid i64: '"@, input)),
            }
        }
    }

    open spec fn spec_format(stored: Option<i64>, default: Option<i64>) -> Seq<char> {
        match Self::spec_get(stored, default) {
            Some(v) => int_text(v as int),
            None => "none"@,
        }
    }

    open spec fn spec_stored_from_default(default: Option<i64>) -> Option<i64> {
        default
    }

    open spec fn spec_reset_value(default: Option<i64>) -> Option<i64> {
        None
    }

    open spec fn spec_validate(stored: Option<i64>) -> Option<ConfigErrorView> {
        V::spec_check(stored)
    }

    open spec fn spec_fallback_default() -> Option<i64> {
        None
    }

    proof fn lemma_reset_shows_default(default: Option<i64>) {
    }

    fn get(stored: &Option<i64>, default: &Option<i64>) -> (r: Option<i64>) {
        match stored {
            Some(v) => Some(*v),
            None => *default,
        }
    }

    fn parse(input: &str, default: &Option<i64>) -> (r: Result<Option<i64>, ConfigError>) {
        let read = |s: &str| -> (r: Result<i64, ConfigError>)
            ensures
                match parse_integer_spec(s@, true, -9223372036854775808, 9223372036854775807) {
                    Some(v) => r matches Ok(x) && x as int == v,
                    None => r matches Err(e) && e@ == ConfigErrorView::InvalidValue(
                        int_error_message("invalid i64: '"@, s@),
                    ),
                },
            {
                match parse_in_range(s, true, -9223372036854775808, 9223372036854775807, "invalid i64: '") {
                    Ok(v) => Ok(v as i64),
                    Err(e) => Err(e),
                }
            };
        match parse_optional_value(input, read) {
            Ok(parsed) => Ok(normalize_optional_value(parsed, *default)),
            Err(e) => Err(e),
        }
    }

    fn format(stored: &Option<i64>, default: &Option<i64>) -> (r: String) {
        assert(stored.deep_view() == *stored);
        assert(default.deep_view() == *default);
        let v = match stored {
            Some(x) => Some(*x),
            None => *default,
        };
        match v {
            Some(x) => int_to_string(x as i128),
            None => owned("none"),
        }
    }

    fn stored_from_default(default: &Option<i64>) -> (r: Option<i64>) {
        *default
    }

    fn validate(stored: &Option<i64>) -> (r: Result<(), ConfigError>) {
        V::validate(stored)
    }

    fn reset_value(default: &Option<i64>) -> (r: Option<i64>) {
        None
    }

    fn fallback_default() -> (r: Option<i64>) {
        None
    }
}

/// Laws of `I64` fields: `none` is refused by a required field and clears an optional one
/// back to its default; a number in range is read back by the getter and is never stored
/// when it equals the default; and the displayed text of a stored value, set again, gives
/// the same value.
pub proof fn lemma_i64_reads_back<V: ConfigValidator<Option<i64>>>(
    input: Seq<char>,
    required_default: i64,
    optional_default: Option<i64>,
    stored: Option<i64>,
)
    ensures
        is_none_word(input) ==> I64::<V, Required>::spec_parse(input, required_default) is Err,
        is_none_word(input) ==> (I64::<V, Optional>::spec_parse(input, optional_default) matches Ok(st)
            && I64::<V, Optional>::spec_get(st, optional_default) == optional_default),
        !is_none_word(input) && parse_integer_spec(input, true, -9223372036854775808, 9223372036854775807) is None ==> I64::<
            V,
            Required,
        >::spec_parse(input, required_default) is Err && I64::<V, Optional>::spec_parse(
            input,
            optional_default,
        ) is Err,
        !is_none_word(input) && parse_integer_spec(input, true, -9223372036854775808, 9223372036854775807) is Some ==> {
            let v = parse_integer_spec(input, true, -9223372036854775808, 9223372036854775807)->Some_0 as i64;
            &&& I64::<V, Required>::spec_parse(input, required_default) matches Ok(st)
                && I64::<V, Required>::spec_get(st, required_default) == v && st != Some(
                required_default,
            )
            &&& I64::<V, Optional>::spec_parse(input, optional_default) matches Ok(st)
                && I64::<V, Optional>::spec_get(st, optional_default) == Some(v) && st
                != optional_default
        },
        I64::<V, Required>::spec_parse(
            I64::<V, Required>::spec_format(stored, required_default),
            required_default,
        ) matches Ok(st) && I64::<V, Required>::spec_get(st, required_default) == I64::<
            V,
            Required,
        >::spec_get(stored, required_default),
{
    let x = I64::<V, Required>::spec_get(stored, required_default);
    lemma_int_text_parses_back(x as int, true, -9223372036854775808, 9223372036854775807);
    lemma_int_text_not_none(x as int);
}

} // verus!
