use std::marker::PhantomData;

use vstd::prelude::*;

use crate::config_type::ConfigType;
use crate::error::{ConfigError, ConfigErrorView};
use crate::helpers::{normalize_optional_value, normalized, parse_optional_value};
use crate::optionality::{Optional, Required};
use crate::strings::{
    ascii_lower_code, eq_ignore_ascii_case, is_none_keyword, is_ws, none_word, trim_end, trim_start, is_none_word, lowercase_of, owned, str_eq_ignore_ascii_case,
    to_lowercase, trim, trim_str,
};
use crate::validator::{ConfigValidator, NoValidation};

verus! {

/// A boolean config value.
///
/// Accepts `"true"`, `"false"`, `"yes"`, `"no"`, `"1"`, `"0"` on parse.
pub struct Bool<V = NoValidation, O = Required>(PhantomData<(V, O)>);

/// The boolean a (trimmed) word stands for: `true`/`yes`/`1`/`on` and
/// `false`/`no`/`0`/`off`, in any ASCII case.
pub open spec fn bool_word(t: Seq<char>) -> Option<bool> {
    if eq_ignore_ascii_case(t, "true"@) || eq_ignore_ascii_case(t, "yes"@) || eq_ignore_ascii_case(
        t,
        "1"@,
    ) || eq_ignore_ascii_case(t, "on"@) {
        Some(true)
    } else if eq_ignore_ascii_case(t, "false"@) || eq_ignore_ascii_case(t, "no"@)
        || eq_ignore_ascii_case(t, "0"@) || eq_ignore_ascii_case(t, "off"@) {
        Some(false)
    } else {
        None
    }
}

/// The message for an input that is not a boolean word.
pub open spec fn bool_error_message(input: Seq<char>) -> Seq<char> {
    "invalid boolean: '"@ + lowercase_of(trim(input)) + "' (expected true/false/yes/no/1/0)"@
}

/// What `parse_bool` gives for `input`: the boolean of its trimmed text, else the message.
pub open spec fn spec_parse_bool(input: Seq<char>) -> Result<bool, Seq<char>> {
    match bool_word(trim(input)) {
        Some(b) => Ok(b),
        None => Err(bool_error_message(input)),
    }
}

/// The text a boolean is displayed as.
pub open spec fn bool_text(b: bool) -> Seq<char> {
    if b {
        "true"@
    } else {
        "false"@
    }
}

/// Reads a boolean word, ignoring surrounding whitespace and ASCII case.
pub fn parse_bool(input: &str) -> (r: Result<bool, ConfigError>)
    ensures
        match spec_parse_bool(input@) {
            Ok(b) => r == Ok::<bool, ConfigError>(b),
            Err(m) => r matches Err(e) && e@ == ConfigErrorView::InvalidValue(m),
        },
{
    let t = trim_str(input);
    if str_eq_ignore_ascii_case(t, "true") || str_eq_ignore_ascii_case(t, "yes")
        || str_eq_ignore_ascii_case(t, "1") || str_eq_ignore_ascii_case(t, "on") {
        Ok(true)
    } else if str_eq_ignore_ascii_case(t, "false") || str_eq_ignore_ascii_case(t, "no")
        || str_eq_ignore_ascii_case(t, "0") || str_eq_ignore_ascii_case(t, "off") {
        Ok(false)
    } else {
        let other = to_lowercase(t);
        let mut msg = owned("invalid boolean: '");
        msg.append(other.as_str());
        msg.append("' (expected true/false/yes/no/1/0)");
        Err(ConfigError::InvalidValue(msg))
    }
}

/// The text of a boolean.
pub fn bool_to_string(b: bool) -> (r: String)
    ensures
        r@ == bool_text(b),
{
    if b {
        owned("true")
    } else {
        owned("false")
    }
}

impl<V: ConfigValidator<Option<bool>>> ConfigType for Bool<V, Required> {
    type Stored = Option<bool>;

    type Default = bool;

    type Value = bool;

    open spec fn spec_get(stored: Option<bool>, default: bool) -> bool {
        match stored {
            Some(b) => b,
            None => default,
        }
    }

    open spec fn spec_parse(input: Seq<char>, default: bool) -> Result<Option<bool>, Seq<char>> {
        if is_none_word(input) {
            Err("'none' is not valid for a required boolean field"@)
        } else {
            match spec_parse_bool(input) {
                Ok(b) => Ok(normalized(Some(b), Some(default))),
                Err(m) => Err(m),
            }
        }
    }

    open spec fn spec_format(stored: Option<bool>, default: bool) -> Seq<char> {
        bool_text(Self::spec_get(stored, default))
    }

    open spec fn spec_stored_from_default(default: bool) -> Option<bool> {
        Some(default)
    }

    open spec fn spec_reset_value(default: bool) -> Option<bool> {
        None
    }

    open spec fn spec_validate(stored: Option<bool>) -> Option<ConfigErrorView> {
        V::spec_check(stored)
    }

    open spec fn spec_fallback_default() -> bool {
        false
    }

    proof fn lemma_reset_shows_default(default: bool) {
    }

    fn get(stored: &Option<bool>, default: &bool) -> (r: bool) {
        match stored {
            Some(b) => *b,
            None => *default,
        }
    }

    fn parse(input: &str, default: &bool) -> (r: Result<Option<bool>, ConfigError>) {
        let is_none = is_none_keyword(input);
        if is_none {
            return Err(
                ConfigError::InvalidValue(
                    owned("'none' is not valid for a required boolean field"),
                ),
            );
        }
        match parse_bool(input) {
            Ok(parsed) => Ok(normalize_optional_value(Some(parsed), Some(*default))),
            Err(e) => Err(e),
        }
    }

    fn format(stored: &Option<bool>, default: &bool) -> (r: String) {
        assert(stored.deep_view() == *stored);
        let v = match stored {
            Some(b) => *b,
            None => *default,
        };
        bool_to_string(v)
    }

    fn stored_from_default(default: &bool) -> (r: Option<bool>) {
        assert(Some(*default).deep_view() == Some(*default));
        Some(*default)
    }

    fn validate(stored: &Option<bool>) -> (r: Result<(), ConfigError>) {
        V::validate(stored)
    }

    fn reset_value(default: &bool) -> (r: Option<bool>) {
        None
    }

    fn fallback_default() -> (r: bool) {
        false
    }
}

impl<V: ConfigValidator<Option<bool>>> ConfigType for Bool<V, Optional> {
    type Stored = Option<bool>;

    type Default = Option<bool>;

    type Value = Option<bool>;

    open spec fn spec_get(stored: Option<bool>, default: Option<bool>) -> Option<bool> {
        match stored {
            Some(b) => Some(b),
            None => default,
        }
    }

    open spec fn spec_parse(input: Seq<char>, default: Option<bool>) -> Result<
        Option<bool>,
        Seq<char>,
    > {
        if is_none_word(input) {
            Ok(None)
        } else {
            match spec_parse_bool(input) {
                Ok(b) => Ok(normalized(Some(b), default)),
                Err(m) => Err(m),
            }
        }
    }

    open spec fn spec_format(stored: Option<bool>, default: Option<bool>) -> Seq<char> {
        match Self::spec_get(stored, default) {
            Some(b) => bool_text(b),
            None => "none"@,
        }
    }

    open spec fn spec_stored_from_default(default: Option<bool>) -> Option<bool> {
        default
    }

    open spec fn spec_reset_value(default: Option<bool>) -> Option<bool> {
        None
    }

    open spec fn spec_validate(stored: Option<bool>) -> Option<ConfigErrorView> {
        V::spec_check(stored)
    }

    open spec fn spec_fallback_default() -> Option<bool> {
        None
    }

    proof fn lemma_reset_shows_default(default: Option<bool>) {
    }

    fn get(stored: &Option<bool>, default: &Option<bool>) -> (r: Option<bool>) {
        match stored {
            Some(b) => Some(*b),
            None => *default,
        }
    }

    fn parse(input: &str, default: &Option<bool>) -> (r: Result<Option<bool>, ConfigError>) {
        match parse_optional_value(input, parse_bool) {
            Ok(parsed) => Ok(normalize_optional_value(parsed, *default)),
            Err(e) => Err(e),
        }
    }

    fn format(stored: &Option<bool>, default: &Option<bool>) -> (r: String) {
        assert(stored.deep_view() == *stored);
        assert(default.deep_view() == *default);
        let v = match stored {
            Some(b) => Some(*b),
            None => *default,
        };
        match v {
            Some(b) => bool_to_string(b),
            None => owned("none"),
        }
    }

    fn stored_from_default(default: &Option<bool>) -> (r: Option<bool>) {
        *default
    }

    fn validate(stored: &Option<bool>) -> (r: Result<(), ConfigError>) {
        V::validate(stored)
    }

    fn reset_value(default: &Option<bool>) -> (r: Option<bool>) {
        None
    }

    fn fallback_default() -> (r: Option<bool>) {
        None
    }
}

/// The display text of a boolean reads back as the same boolean.
pub proof fn lemma_bool_text_parses_back(b: bool)
    ensures
        spec_parse_bool(bool_text(b)) == Ok::<bool, Seq<char>>(b),
        !is_none_word(bool_text(b)),
{
    reveal_strlit("true");
    reveal_strlit("false");
    reveal_strlit("yes");
    reveal_strlit("1");
    reveal_strlit("on");
    reveal_strlit("no");
    reveal_strlit("0");
    reveal_strlit("off");
    let t = bool_text(b);
    assert(trim_start(t) == t);
    assert(trim_end(t) == t);
    if b {
        assert(eq_ignore_ascii_case(t, "true"@));
    } else {
        assert(!eq_ignore_ascii_case(t, "true"@));
        assert(!eq_ignore_ascii_case(t, "yes"@));
        assert(!eq_ignore_ascii_case(t, "on"@));
        assert(eq_ignore_ascii_case(t, "false"@));
    }
}

/// Laws of `Bool` fields: `none` is refused by a required field and clears an optional one
/// back to its default; a boolean word is read back by the getter and is never stored when
/// it equals the default; and the displayed text of a stored value, set again, gives the same
/// value.
pub proof fn lemma_bool_reads_back<V: ConfigValidator<Option<bool>>>(
    input: Seq<char>,
    required_default: bool,
    optional_default: Option<bool>,
    stored: Option<bool>,
)
    ensures
        is_none_word(input) ==> Bool::<V, Required>::spec_parse(input, required_default) is Err,
        is_none_word(input) ==> (Bool::<V, Optional>::spec_parse(input, optional_default) matches Ok(
            st,
        ) && Bool::<V, Optional>::spec_get(st, optional_default) == optional_default),
        !is_none_word(input) && bool_word(trim(input)) is None ==> Bool::<
            V,
            Required,
        >::spec_parse(input, required_default) is Err && Bool::<V, Optional>::spec_parse(
            input,
            optional_default,
        ) is Err,
        !is_none_word(input) && bool_word(trim(input)) is Some ==> {
            let v = bool_word(trim(input))->Some_0;
            &&& Bool::<V, Required>::spec_parse(input, required_default) matches Ok(st)
                && Bool::<V, Required>::spec_get(st, required_default) == v && st != Some(
                required_default,
            )
            &&& Bool::<V, Optional>::spec_parse(input, optional_default) matches Ok(st)
                && Bool::<V, Optional>::spec_get(st, optional_default) == Some(v) && st
                != optional_default
        },
        Bool::<V, Required>::spec_parse(
            Bool::<V, Required>::spec_format(stored, required_default),
            required_default,
        ) matches Ok(st) && Bool::<V, Required>::spec_get(st, required_default) == Bool::<
            V,
            Required,
        >::spec_get(stored, required_default),
{
    lemma_bool_text_parses_back(Bool::<V, Required>::spec_get(stored, required_default));
}

/// `true`, `yes`, `1` and `on` hold one of these words, in any ASCII case.
pub open spec fn is_true_word(t: Seq<char>) -> bool {
    ||| eq_ignore_ascii_case(t, seq!['t', 'r', 'u', 'e'])
    ||| eq_ignore_ascii_case(t, seq!['y', 'e', 's'])
    ||| eq_ignore_ascii_case(t, seq!['1'])
    ||| eq_ignore_ascii_case(t, seq!['o', 'n'])
}

/// `false`, `no`, `0` and `off` hold one of these words, in any ASCII case.
pub open spec fn is_false_word(t: Seq<char>) -> bool {
    ||| eq_ignore_ascii_case(t, seq!['f', 'a', 'l', 's', 'e'])
    ||| eq_ignore_ascii_case(t, seq!['n', 'o'])
    ||| eq_ignore_ascii_case(t, seq!['0'])
    ||| eq_ignore_ascii_case(t, seq!['o', 'f', 'f'])
}

/// Every boolean word is read, in any ASCII case and with any surrounding white space:
/// `true`, `yes`, `1` and `on` as true, `false`, `no`, `0` and `off` as false; a required
/// boolean field set to such a word then reads that boolean, whatever its default.
pub proof fn lemma_bool_words<V: ConfigValidator<Option<bool>>>(input: Seq<char>, default: bool)
    ensures
        is_true_word(trim(input)) ==> spec_parse_bool(input) == Ok::<bool, Seq<char>>(true) && (
        Bool::<V, Required>::spec_parse(input, default) matches Ok(st) && Bool::<
            V,
            Required,
        >::spec_get(st, default) == true),
        is_false_word(trim(input)) ==> spec_parse_bool(input) == Ok::<bool, Seq<char>>(false) && (
        Bool::<V, Required>::spec_parse(input, default) matches Ok(st) && Bool::<
            V,
            Required,
        >::spec_get(st, default) == false),
{
    reveal_strlit("true");
    reveal_strlit("yes");
    reveal_strlit("1");
    reveal_strlit("on");
    reveal_strlit("false");
    reveal_strlit("no");
    reveal_strlit("0");
    reveal_strlit("off");
    let t = trim(input);
    if is_none_word(input) {
        // `none` holds no white space, so trimming leaves it as it is, and it is no
        // boolean word.
        assert(!is_ws(input[0]));
        assert(!is_ws(input.last())) by {
            assert(input.last() == input[3]);
        }
        assert(trim_start(input) == input);
        assert(trim_end(input) == input);
        assert(t == input);
        assert(ascii_lower_code(input[0]) == ascii_lower_code(none_word()[0]));
        assert(ascii_lower_code(input[1]) == ascii_lower_code(none_word()[1]));
        assert(ascii_lower_code(input[2]) == ascii_lower_code(none_word()[2]));
        assert(ascii_lower_code(input[3]) == ascii_lower_code(none_word()[3]));
        assert(!is_true_word(t)) by {
            assert(ascii_lower_code(t[0]) != ascii_lower_code('t'));
        }
        assert(!is_false_word(t)) by {
            assert(t.len() == 4);
        }
    }
    if is_true_word(t) {
        assert(!is_false_word(t)) by {
            let (w1, w2, w3, w4) = (
                seq!['t', 'r', 'u', 'e'],
                seq!['y', 'e', 's'],
                seq!['1'],
                seq!['o', 'n'],
            );
            let (f1, f2, f3, f4) = (
                seq!['f', 'a', 'l', 's', 'e'],
                seq!['n', 'o'],
                seq!['0'],
                seq!['o', 'f', 'f'],
            );
            if eq_ignore_ascii_case(t, w2) {
                assert(ascii_lower_code(t[0]) == ascii_lower_code(w2[0]));
                assert(ascii_lower_code(f4[0]) != ascii_lower_code(w2[0]));
            }
            if eq_ignore_ascii_case(t, w3) {
                assert(ascii_lower_code(t[0]) == ascii_lower_code(w3[0]));
                assert(ascii_lower_code(f3[0]) != ascii_lower_code(w3[0]));
            }
            if eq_ignore_ascii_case(t, w4) {
                assert(ascii_lower_code(t[0]) == ascii_lower_code(w4[0]));
                assert(ascii_lower_code(f2[0]) != ascii_lower_code(w4[0]));
            }
            if eq_ignore_ascii_case(t, w1) {
                assert(t.len() == 4);
            }
        }
        assert("true"@ =~= seq!['t', 'r', 'u', 'e']);
        assert("yes"@ =~= seq!['y', 'e', 's']);
        assert("1"@ =~= seq!['1']);
        assert("on"@ =~= seq!['o', 'n']);
    }
    if is_false_word(t) {
        assert("true"@ =~= seq!['t', 'r', 'u', 'e']);
        assert("yes"@ =~= seq!['y', 'e', 's']);
        assert("1"@ =~= seq!['1']);
        assert("on"@ =~= seq!['o', 'n']);
        assert("false"@ =~= seq!['f', 'a', 'l', 's', 'e']);
        assert("no"@ =~= seq!['n', 'o']);
        assert("0"@ =~= seq!['0']);
        assert("off"@ =~= seq!['o', 'f', 'f']);
    }
}

} // verus!
