use vstd::prelude::*;

use crate::error::{ConfigError, ConfigErrorView};

verus! {

/// A reusable validator for a config value.
///
/// Implement this for marker types that enforce constraints beyond the base
/// parsing behavior of a [`ConfigType`](crate::ConfigType). `spec_check` says which
/// values are refused and with which error.
pub trait ConfigValidator<T: DeepView> {
    /// `None` when `value` is accepted, else the error it is refused with.
    spec fn spec_check(value: T::V) -> Option<ConfigErrorView>;

    fn validate(value: &T) -> (r: Result<(), ConfigError>)
        ensures
            match Self::spec_check(value.deep_view()) {
                None => r is Ok,
                Some(e) => r matches Err(x) && x@ == e,
            },
    ;
}

/// Marker type for config values that do not need extra validation.
pub struct NoValidation;

impl<T: DeepView> ConfigValidator<T> for NoValidation {
    open spec fn spec_check(value: T::V) -> Option<ConfigErrorView> {
        None
    }

    fn validate(_value: &T) -> (r: Result<(), ConfigError>) {
        Ok(())
    }
}

} // verus!
