use vstd::prelude::*;

use crate::strings::concat2;
use crate::strings::owned;

verus! {

/// Errors that can occur during config parsing, validation, and key access.
#[derive(Debug)]
pub enum ConfigError {
    /// A value could not be parsed or validated.
    InvalidValue(String),
    /// A config key was not recognised.
    UnknownKey(String),
}

/// The text of a [`ConfigError`]: which kind it is and the characters it carries.
pub enum ConfigErrorView {
    InvalidValue(Seq<char>),
    UnknownKey(Seq<char>),
}

impl View for ConfigError {
    type V = ConfigErrorView;

    open spec fn view(&self) -> ConfigErrorView {
        match self {
            ConfigError::InvalidValue(m) => ConfigErrorView::InvalidValue(m@),
            ConfigError::UnknownKey(k) => ConfigErrorView::UnknownKey(k@),
        }
    }
}

/// The text an error is displayed as: an invalid value shows its message, an unknown key
/// shows `unknown key: ` followed by the key.
pub open spec fn error_text(e: ConfigErrorView) -> Seq<char> {
    match e {
        ConfigErrorView::InvalidValue(m) => m,
        ConfigErrorView::UnknownKey(k) => "unknown key: "@ + k,
    }
}

impl ConfigError {
    /// The text this error is displayed as.
    pub fn message(&self) -> (r: String)
        ensures
            r@ == error_text(self@),
    {
        match self {
            ConfigError::InvalidValue(msg) => owned(msg.as_str()),
            ConfigError::UnknownKey(key) => concat2("unknown key: ", key.as_str()),
        }
    }
}

} // verus!
