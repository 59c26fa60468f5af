use vstd::prelude::*;

use crate::error::{ConfigError, ConfigErrorView};

verus! {

/// Behavior shared by all config value types.
///
/// A `ConfigType` owns the conversion rules for a setting:
/// how it is stored, parsed from a string, displayed,
/// and what the typed getter returns. Each rule is stated over the values' deep views
/// by a spec function of the same name with a `spec_` prefix.
pub trait ConfigType {
    /// The raw serialized representation stored in the `Config` struct.
    type Stored: DeepView;

    /// The effective default value used when the setting is absent.
    type Default: DeepView;

    /// The value returned by the typed getter.
    type Value: DeepView;

    spec fn spec_get(
        stored: <Self::Stored as DeepView>::V,
        default: <Self::Default as DeepView>::V,
    ) -> <Self::Value as DeepView>::V;

    /// `Ok` with the stored value, or `Err` with the message of the `InvalidValue` error.
    spec fn spec_parse(input: Seq<char>, default: <Self::Default as DeepView>::V) -> Result<
        <Self::Stored as DeepView>::V,
        Seq<char>,
    >;

    spec fn spec_format(
        stored: <Self::Stored as DeepView>::V,
        default: <Self::Default as DeepView>::V,
    ) -> Seq<char>;

    spec fn spec_stored_from_default(default: <Self::Default as DeepView>::V) -> <Self::Stored as DeepView>::V;

    spec fn spec_reset_value(default: <Self::Default as DeepView>::V) -> <Self::Stored as DeepView>::V;

    /// `None` when the stored value passes validation, else the error it fails with.
    spec fn spec_validate(stored: <Self::Stored as DeepView>::V) -> Option<ConfigErrorView>;

    /// What `Self::Default::default()` gives.
    spec fn spec_fallback_default() -> <Self::Default as DeepView>::V;

    /// A reset value reads and displays as the default does.
    proof fn lemma_reset_shows_default(default: <Self::Default as DeepView>::V)
        ensures
            Self::spec_get(Self::spec_reset_value(default), default) == Self::spec_get(
                Self::spec_stored_from_default(default),
                default,
            ),
            Self::spec_format(Self::spec_reset_value(default), default) == Self::spec_format(
                Self::spec_stored_from_default(default),
                default,
            ),
    ;

    /// Convert the stored value and default into the typed getter output.
    fn get(stored: &Self::Stored, default: &Self::Default) -> (r: Self::Value)
        ensures
            r.deep_view() == Self::spec_get(stored.deep_view(), default.deep_view()),
    ;

    /// Parse a string into the stored representation.
    fn parse(input: &str, default: &Self::Default) -> (r: Result<Self::Stored, ConfigError>)
        ensures
            match Self::spec_parse(input@, default.deep_view()) {
                Ok(v) => r matches Ok(s) && s.deep_view() == v,
                Err(m) => r matches Err(e) && e@ == ConfigErrorView::InvalidValue(m),
            },
    ;

    /// Format the stored value for display.
    fn format(stored: &Self::Stored, default: &Self::Default) -> (r: String)
        ensures
            r@ == Self::spec_format(stored.deep_view(), default.deep_view()),
    ;

    /// Format the effective default for display.
    fn format_default(default: &Self::Default) -> (r: String)
        ensures
            r@ == Self::spec_format(
                Self::spec_stored_from_default(default.deep_view()),
                default.deep_view(),
            ),
    {
        let default_stored = Self::stored_from_default(default);
        Self::format(&default_stored, default)
    }

    /// Build a stored value from a default value.
    fn stored_from_default(default: &Self::Default) -> (r: Self::Stored)
        ensures
            r.deep_view() == Self::spec_stored_from_default(default.deep_view()),
    ;

    /// Validate the stored representation.
    fn validate(stored: &Self::Stored) -> (r: Result<(), ConfigError>)
        ensures
            match Self::spec_validate(stored.deep_view()) {
                None => r is Ok,
                Some(e) => r matches Err(x) && x@ == e,
            },
    ;

    /// Reset a field back to its default (erase user-set value).
    fn reset_value(default: &Self::Default) -> (r: Self::Stored)
        ensures
            r.deep_view() == Self::spec_reset_value(default.deep_view()),
    ;

    /// The value `Self::Default::default()` gives, used where a default is missing.
    fn fallback_default() -> (r: Self::Default)
        ensures
            r.deep_view() == Self::spec_fallback_default(),
    ;
}

} // verus!
