use vstd::prelude::*;

use crate::config_type::ConfigType;
use crate::error::{ConfigError, ConfigErrorView, error_text};
use crate::strings::owned;

verus! {

/// The message of the error raised for a setting `key` whose value failed with `message`.
pub open spec fn field_error_message(key: Seq<char>, message: Seq<char>) -> Seq<char> {
    "Invalid value for '"@ + key + "': "@ + message
}

fn field_error(key: &str, e: &ConfigError) -> (r: ConfigError)
    ensures
        r@ == ConfigErrorView::InvalidValue(field_error_message(key@, error_text(e@))),
{
    let mut msg = owned("Invalid value for '");
    msg.append(key);
    msg.append("': ");
    let text = e.message();
    msg.append(text.as_str());
    ConfigError::InvalidValue(msg)
}

/// Runs the type's validation on a stored value, naming the setting `key` in the error.
pub fn validate_field<T: ConfigType>(key: &str, value: &T::Stored) -> (r: Result<(), ConfigError>)
    ensures
        match T::spec_validate(value.deep_view()) {
            None => r is Ok,
            Some(e) => r matches Err(x) && x@ == ConfigErrorView::InvalidValue(
                field_error_message(key@, error_text(e)),
            ),
        },
{
    match T::validate(value) {
        Ok(()) => Ok(()),
        Err(e) => Err(field_error(key, &e)),
    }
}

/// What validating a stored value of a setting `key` gives: `None` when it passes, else
/// the error.
pub open spec fn field_check<T: ConfigType>(key: Seq<char>, stored: <T::Stored as DeepView>::V) -> Option<
    ConfigErrorView,
> {
    match T::spec_validate(stored) {
        None => None,
        Some(e) => Some(ConfigErrorView::InvalidValue(field_error_message(key, error_text(e)))),
    }
}

/// What setting a field from `raw` gives: the new stored value, or the error.
pub open spec fn apply_outcome<T: ConfigType>(
    key: Seq<char>,
    raw: Seq<char>,
    default: <T::Default as DeepView>::V,
) -> Result<<T::Stored as DeepView>::V, ConfigErrorView> {
    match T::spec_parse(raw, default) {
        Err(m) => Err(ConfigErrorView::InvalidValue(field_error_message(key, m))),
        Ok(p) => match T::spec_validate(p) {
            Some(e) => Err(ConfigErrorView::InvalidValue(field_error_message(key, error_text(e)))),
            None => Ok(p),
        },
    }
}

/// Parses `raw_value`, validates the result and stores it in `field`; on any error the
/// field is left as it was.
pub fn apply_value<T: ConfigType>(
    key: &str,
    field: &mut T::Stored,
    raw_value: &str,
    value_default: &T::Default,
) -> (r: Result<(), ConfigError>)
    ensures
        match apply_outcome::<T>(key@, raw_value@, value_default.deep_view()) {
            Ok(p) => r is Ok && final(field).deep_view() == p,
            Err(e) => r matches Err(x) && x@ == e && *final(field) == *old(field),
        },
{
    let parsed = match T::parse(raw_value, value_default) {
        Ok(p) => p,
        Err(e) => {
            return Err(field_error(key, &e));
        },
    };
    match validate_field::<T>(key, &parsed) {
        Ok(()) => {},
        Err(e) => {
            return Err(e);
        },
    }
    *field = parsed;
    Ok(())
}

} // verus!
