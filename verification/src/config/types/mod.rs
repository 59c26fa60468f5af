pub mod duration;
pub mod file_size;

use vstd::prelude::*;

use crate::optionality::{Optional, Required};
use crate::types::List;
use crate::validator::NoValidation;

pub use duration::Duration;
pub use file_size::FileSize;

verus! {

/// Duration config value (optional — may resolve to `None`).
pub type OptionalDuration<V = NoValidation> = Duration<V, Optional>;

/// A list of strings, written as comma-separated values.
pub type StringList<V = NoValidation> = List<V, Required>;

} // verus!
