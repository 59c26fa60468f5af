use std::marker::PhantomData;

use vstd::prelude::*;
use vstd::std_specs::cmp::PartialEqSpec;

use crate::config_table::ConfigTable;
use crate::error::{ConfigError, ConfigErrorView};
use crate::strings::{is_none_keyword, is_none_word, owned};
use crate::validator::{ConfigValidator, NoValidation};

verus! {

/// A TOML array-of-tables (`[[key]]`) config value.
///
/// Each element is a user-defined struct that implements [`ConfigTable`].
///
/// String input accepts JSON arrays (e.g. `[{"field":"value"}]`) or `"none"`.
pub struct TableList<T: ConfigTable, V = NoValidation>(PhantomData<(T, V)>);

/// Whether `r` holds clones of the items of `src`, in order.
pub open spec fn clones_of<T: Clone>(src: Seq<T>, r: Seq<T>) -> bool {
    &&& r.len() == src.len()
    &&& forall|i: int| 0 <= i < src.len() ==> cloned::<T>(src[i], #[trigger] r[i])
}

/// Whether two lists of tables are equal by the tables' `==`: the same length, and equal
/// item by item.
pub open spec fn tables_eq<T: PartialEqSpec>(a: Seq<T>, b: Seq<T>) -> bool {
    &&& a.len() == b.len()
    &&& forall|i: int| 0 <= i < a.len() ==> #[trigger] a[i].eq_spec(&b[i])
}

/// What a JSON read gives, by its view: the tables read, or the reader's message.
pub open spec fn decoded_view<T>(decoded: Result<Vec<T>, String>) -> Result<Seq<T>, Seq<char>> {
    match decoded {
        Ok(v) => Ok(v@),
        Err(m) => Err(m@),
    }
}

/// What a parse gives, by its view: the tables to store (`None` for none), or the error.
pub open spec fn parse_outcome_view<T>(r: Result<Option<Vec<T>>, ConfigError>) -> Result<
    Option<Seq<T>>,
    ConfigErrorView,
> {
    match r {
        Ok(Some(v)) => Ok(Some(v@)),
        Ok(None) => Ok(None),
        Err(e) => Err(e@),
    }
}

/// Whether `out` is what parsing gives once the JSON has been read into `decoded`: the
/// reader's message becomes an `InvalidValue` prefixed with `invalid table list JSON: `;
/// tables read are stored, or give `None` when they equal `default`. Tables of another
/// length than the default's are never equal to it, so they are stored; for tables of the
/// same length the tables' `==` decides, so it is stated where that `==` obeys its
/// specification.
pub open spec fn finished_as<T: PartialEqSpec>(
    decoded: Result<Seq<T>, Seq<char>>,
    default: Seq<T>,
    out: Result<Option<Seq<T>>, ConfigErrorView>,
) -> bool {
    match decoded {
        Err(m) => out == Err::<Option<Seq<T>>, ConfigErrorView>(
            ConfigErrorView::InvalidValue("invalid table list JSON: "@ + m),
        ),
        Ok(p) => {
            &&& (out == Ok::<Option<Seq<T>>, ConfigErrorView>(None) || out == Ok::<
                Option<Seq<T>>,
                ConfigErrorView,
            >(Some(p)))
            &&& p.len() != default.len() ==> out == Ok::<Option<Seq<T>>, ConfigErrorView>(
                Some(p),
            )
            &&& T::obeys_eq_spec() ==> (out == Ok::<Option<Seq<T>>, ConfigErrorView>(None)
                <==> tables_eq(p, default))
        },
    }
}

/// The tables that are displayed: the stored ones, or the default ones.
pub open spec fn shown_tables<T>(stored: Option<Vec<T>>, default: Vec<T>) -> Seq<T> {
    match stored {
        Some(v) => v@,
        None => default@,
    }
}

impl<T: ConfigTable, V> TableList<T, V> {
    /// The stored tables, or the default ones when nothing is stored.
    pub fn get(stored: &Option<Vec<T>>, default: &Vec<T>) -> (r: Vec<T>)
        ensures
            clones_of(
                match stored {
                    Some(v) => v@,
                    None => default@,
                },
                r@,
            ),
    {
        match stored {
            Some(v) => v.clone(),
            None => default.clone(),
        }
    }

    /// Parses a JSON array of tables, or `none`; a list equal to the default is stored as
    /// `None`. The JSON is read by the element type's `ConfigTable::from_json_list`.
    pub fn parse(input: &str, default: &Vec<T>) -> (r: Result<Option<Vec<T>>, ConfigError>)
        ensures
            is_none_word(input@) ==> r matches Ok(None),
            !is_none_word(input@) ==> finished_as(
                T::spec_from_json_list(input@),
                default@,
                parse_outcome_view(r),
            ),
    {
        if is_none_keyword(input) {
            return Ok(None);
        }
        let decoded = T::from_json_list(input);
        Self::finish_parse(decoded, default)
    }

    /// What parsing gives once the JSON has been read into `decoded`: the reader's error
    /// becomes an `InvalidValue`, a list equal to the default becomes `None`.
    pub fn finish_parse(decoded: Result<Vec<T>, String>, default: &Vec<T>) -> (r: Result<
        Option<Vec<T>>,
        ConfigError,
    >)
        ensures
            finished_as(decoded_view(decoded), default@, parse_outcome_view(r)),
    {
        match decoded {
            Err(m) => {
                let mut msg = owned("invalid table list JSON: ");
                msg.append(m.as_str());
                Err(ConfigError::InvalidValue(msg))
            },
            Ok(parsed) => {
                if parsed.len() != default.len() {
                    Ok(Some(parsed))
                } else if parsed == *default {
                    Ok(None)
                } else {
                    Ok(Some(parsed))
                }
            },
        }
    }

    /// The JSON text of the stored tables (or of the default ones), or `none` when they
    /// cannot be written. The text comes from the element type's `ConfigTable::to_json_list`.
    pub fn format(stored: &Option<Vec<T>>, default: &Vec<T>) -> (r: String)
        ensures
            r@ == match T::spec_to_json_list(shown_tables(*stored, *default)) {
                Some(text) => text,
                None => "none"@,
            },
    {
        let values = match stored {
            Some(v) => v,
            None => default,
        };
        Self::text_or_none(T::to_json_list(values.as_slice()))
    }

    /// The written JSON, or `none` when nothing could be written.
    pub fn text_or_none(encoded: Option<String>) -> (r: String)
        ensures
            r@ == match encoded {
                Some(s) => s@,
                None => "none"@,
            },
    {
        match encoded {
            Some(s) => s,
            None => owned("none"),
        }
    }

    /// The stored form of a default list of tables.
    pub fn stored_from_default(default: Vec<T>) -> (r: Option<Vec<T>>)
        ensures
            r == Some(default),
    {
        Some(default)
    }

    /// Validate the stored tables with the field's validator.
    pub fn validate(stored: &Option<Vec<T>>) -> (r: Result<(), ConfigError>) where
        T: DeepView,
        V: ConfigValidator<Option<Vec<T>>>,

        ensures
            match V::spec_check(stored.deep_view()) {
                None => r is Ok,
                Some(e) => r matches Err(x) && x@ == e,
            },
    {
        V::validate(stored)
    }
}

} // verus!
