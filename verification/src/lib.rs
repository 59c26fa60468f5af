pub mod config_table;
pub mod config;
pub mod config_type;
pub mod error;
pub mod fields;
pub mod helpers;
pub mod optionality;
pub mod strings;
pub mod types;
pub mod validator;

pub use config_table::ConfigTable;
pub use config_type::ConfigType;
pub use error::{ConfigError, ConfigErrorView};
pub use optionality::{Optional, Required};
pub use validator::{ConfigValidator, NoValidation};
pub use types::{ArrayOf, Bool, List, I16, I32, I64, I8, TableList, Text, U16, U32, U64, U8};
pub use fields::{apply_value, validate_field};
pub use config::settings::{Config, ConfigCategory, ConfigKey};
pub use config::values::{DurationValue, FileSizeValue};
