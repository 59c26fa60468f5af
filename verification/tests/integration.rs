// A small settings schema written out by hand on top of the library's building blocks:
//
//   root:   app_name: Text = "myapp"      "Application name"
//           verbose:  Bool = false        "Enable verbose output"
//   server: host:     Text = "localhost"  "Server hostname"
//           port:     U32 = 8080          "Server port"
//           tags:     ArrayOf<Text> = []  "Search tags"

use apto::types::{ArrayOf, Bool, Text, U32};
use apto::{apply_value, validate_field, ConfigError, ConfigType};

#[derive(Clone, Debug, Default)]
pub struct Config {
    pub app_name: <Text as ConfigType>::Stored,
    pub verbose: <Bool as ConfigType>::Stored,
    pub host: <Text as ConfigType>::Stored,
    pub port: <U32 as ConfigType>::Stored,
    pub tags: <ArrayOf<Text> as ConfigType>::Stored,
}

#[derive(Clone, Copy, Debug, Eq, PartialEq)]
#[allow(non_camel_case_types)]
pub enum ConfigCategory {
    server,
}

impl ConfigCategory {
    pub fn as_str(&self) -> &str {
        match self {
            ConfigCategory::server => "server",
        }
    }

    pub fn all() -> &'static [ConfigCategory] {
        &[ConfigCategory::server]
    }

    pub fn keys(&self) -> &'static [ConfigKey] {
        match self {
            ConfigCategory::server => &[ConfigKey::host, ConfigKey::port, ConfigKey::tags],
        }
    }
}

#[derive(Clone, Copy, Debug, Eq, PartialEq)]
#[allow(non_camel_case_types)]
pub enum ConfigKey {
    app_name,
    verbose,
    host,
    port,
    tags,
}

impl ConfigKey {
    pub fn as_str(&self) -> &str {
        match self {
            ConfigKey::app_name => "app_name",
            ConfigKey::verbose => "verbose",
            ConfigKey::host => "host",
            ConfigKey::port => "port",
            ConfigKey::tags => "tags",
        }
    }

    pub fn from_key(s: &str) -> Option<ConfigKey> {
        match s {
            "app_name" => Some(ConfigKey::app_name),
            "verbose" => Some(ConfigKey::verbose),
            "host" => Some(ConfigKey::host),
            "port" => Some(ConfigKey::port),
            "tags" => Some(ConfigKey::tags),
            _ => None,
        }
    }

    pub fn all() -> &'static [ConfigKey] {
        &[ConfigKey::app_name, ConfigKey::verbose, ConfigKey::host, ConfigKey::port, ConfigKey::tags]
    }

    pub fn category(&self) -> Option<ConfigCategory> {
        match self {
            ConfigKey::app_name | ConfigKey::verbose => None,
            ConfigKey::host | ConfigKey::port | ConfigKey::tags => Some(ConfigCategory::server),
        }
    }
}

fn default_app_name() -> String {
    "myapp".to_string()
}

fn default_host() -> String {
    "localhost".to_string()
}

impl Config {
    pub fn get_app_name(&self) -> String {
        <Text as ConfigType>::get(&self.app_name, &default_app_name())
    }

    pub fn get_verbose(&self) -> bool {
        <Bool as ConfigType>::get(&self.verbose, &false)
    }

    pub fn get_host(&self) -> String {
        <Text as ConfigType>::get(&self.host, &default_host())
    }

    pub fn get_port(&self) -> u32 {
        <U32 as ConfigType>::get(&self.port, &8080)
    }

    pub fn get_tags(&self) -> Vec<String> {
        <ArrayOf<Text> as ConfigType>::get(&self.tags, &Vec::new())
    }

    pub fn validate(&self) -> Result<(), ConfigError> {
        validate_field::<Text>("app_name", &self.app_name)?;
        validate_field::<Bool>("verbose", &self.verbose)?;
        validate_field::<Text>("host", &self.host)?;
        validate_field::<U32>("port", &self.port)?;
        validate_field::<ArrayOf<Text>>("tags", &self.tags)?;
        Ok(())
    }

    pub fn get_value(&self, key: &str) -> String {
        match ConfigKey::from_key(key) {
            Some(ConfigKey::app_name) => <Text as ConfigType>::format(&self.app_name, &default_app_name()),
            Some(ConfigKey::verbose) => <Bool as ConfigType>::format(&self.verbose, &false),
            Some(ConfigKey::host) => <Text as ConfigType>::format(&self.host, &default_host()),
            Some(ConfigKey::port) => <U32 as ConfigType>::format(&self.port, &8080),
            Some(ConfigKey::tags) => <ArrayOf<Text> as ConfigType>::format(&self.tags, &Vec::new()),
            None => "unknown key".to_string(),
        }
    }

    pub fn set_value(&mut self, key: &str, value: &str) -> Result<(), ConfigError> {
        match ConfigKey::from_key(key) {
            Some(ConfigKey::app_name) => {
                apply_value::<Text>("app_name", &mut self.app_name, value, &default_app_name())?
            }
            Some(ConfigKey::verbose) => apply_value::<Bool>("verbose", &mut self.verbose, value, &false)?,
            Some(ConfigKey::host) => apply_value::<Text>("host", &mut self.host, value, &default_host())?,
            Some(ConfigKey::port) => apply_value::<U32>("port", &mut self.port, value, &8080)?,
            Some(ConfigKey::tags) => {
                apply_value::<ArrayOf<Text>>("tags", &mut self.tags, value, &Vec::new())?
            }
            None => return Err(ConfigError::UnknownKey(key.to_string())),
        }
        Ok(())
    }

    pub fn reset_key(&mut self, key: &str) -> Result<String, ConfigError> {
        match ConfigKey::from_key(key) {
            Some(ConfigKey::app_name) => {
                self.app_name = <Text as ConfigType>::reset_value(&default_app_name());
                Ok(<Text as ConfigType>::format_default(&default_app_name()))
            }
            Some(ConfigKey::verbose) => {
                self.verbose = <Bool as ConfigType>::reset_value(&false);
                Ok(<Bool as ConfigType>::format_default(&false))
            }
            Some(ConfigKey::host) => {
                self.host = <Text as ConfigType>::reset_value(&default_host());
                Ok(<Text as ConfigType>::format_default(&default_host()))
            }
            Some(ConfigKey::port) => {
                self.port = <U32 as ConfigType>::reset_value(&8080);
                Ok(<U32 as ConfigType>::format_default(&8080))
            }
            Some(ConfigKey::tags) => {
                self.tags = <ArrayOf<Text> as ConfigType>::reset_value(&Vec::new());
                Ok(<ArrayOf<Text> as ConfigType>::format_default(&Vec::new()))
            }
            None => Err(ConfigError::UnknownKey(key.to_string())),
        }
    }

    pub fn get_default_string(&self, key: ConfigKey) -> String {
        match key {
            ConfigKey::app_name => <Text as ConfigType>::format_default(&default_app_name()),
            ConfigKey::verbose => <Bool as ConfigType>::format_default(&false),
            ConfigKey::host => <Text as ConfigType>::format_default(&default_host()),
            ConfigKey::port => <U32 as ConfigType>::format_default(&8080),
            ConfigKey::tags => <ArrayOf<Text> as ConfigType>::format_default(&Vec::new()),
        }
    }

    pub fn get_description(&self, key: &str) -> String {
        match ConfigKey::from_key(key) {
            Some(ConfigKey::app_name) => "Application name".to_string(),
            Some(ConfigKey::verbose) => "Enable verbose output".to_string(),
            Some(ConfigKey::host) => "Server hostname".to_string(),
            Some(ConfigKey::port) => "Server port".to_string(),
            Some(ConfigKey::tags) => "Search tags".to_string(),
            None => "unknown key".to_string(),
        }
    }
}

#[test]
fn root_fields_have_no_category() {
    let key = ConfigKey::app_name;
    assert!(key.category().is_none());
}

#[test]
fn category_fields_have_category() {
    let key = ConfigKey::host;
    assert_eq!(key.category(), Some(ConfigCategory::server));
}

#[test]
fn config_defaults() {
    let c = Config::default();
    assert_eq!(c.get_app_name(), "myapp");
    assert_eq!(c.get_verbose(), false);
    assert_eq!(c.get_host(), "localhost");
    assert_eq!(c.get_port(), 8080);
}

#[test]
fn config_get_value() {
    let c = Config::default();
    assert_eq!(c.get_value("app_name"), "myapp");
    assert_eq!(c.get_value("host"), "localhost");
    assert_eq!(c.get_value("verbose"), "false");
}

#[test]
fn config_set_value() {
    let mut c = Config::default();
    c.set_value("app_name", "newname").unwrap();
    assert_eq!(c.get_app_name(), "newname");
}

#[test]
fn config_reset_key() {
    let mut c = Config::default();
    c.set_value("app_name", "newname").unwrap();
    c.reset_key("app_name").unwrap();
    assert_eq!(c.get_app_name(), "myapp");
}

#[test]
fn config_description() {
    let c = Config::default();
    assert_eq!(c.get_description("app_name"), "Application name");
    assert_eq!(c.get_description("host"), "Server hostname");
    assert_eq!(c.get_description("nonexistent"), "unknown key");
}

#[test]
fn config_validate() {
    let c = Config::default();
    c.validate().unwrap();
}

#[test]
fn config_key_from_key() {
    assert!(ConfigKey::from_key("app_name").is_some());
    assert!(ConfigKey::from_key("host").is_some());
    assert!(ConfigKey::from_key("nonexistent").is_none());
}

#[test]
fn config_key_all_contains_all() {
    let all = ConfigKey::all();
    assert!(all.contains(&ConfigKey::app_name));
    assert!(all.contains(&ConfigKey::host));
    assert!(all.contains(&ConfigKey::port));
    assert!(all.contains(&ConfigKey::tags));
}

#[test]
fn config_categories() {
    let cats = ConfigCategory::all();
    assert_eq!(cats, &[ConfigCategory::server]);
}

#[test]
fn config_category_keys() {
    let keys = ConfigCategory::server.keys();
    assert!(keys.contains(&ConfigKey::host));
    assert!(keys.contains(&ConfigKey::port));
    assert!(keys.contains(&ConfigKey::tags));
}

#[test]
fn config_array_field_get() {
    let c = Config::default();
    let tags: Vec<String> = c.get_tags();
    assert!(tags.is_empty());
}

#[test]
fn config_array_field_set() {
    let mut c = Config::default();
    c.set_value("tags", "alpha, beta, gamma").unwrap();
    let tags = c.get_tags();
    assert_eq!(tags, vec!["alpha", "beta", "gamma"]);
}

#[test]
fn schema_set_then_reset_round_trip() {
    let mut c = Config::default();
    c.set_value("port", "4000").unwrap();
    assert_eq!(c.get_port(), 4000);
    assert_eq!(c.get_value("port"), "4000");
    assert_eq!(c.reset_key("port").unwrap(), "8080");
    assert_eq!(c.get_port(), 8080);
    assert_eq!(c.port, None);
}

#[test]
fn schema_rejected_value_leaves_setting_unchanged() {
    let mut c = Config::default();
    c.set_value("port", "9090").unwrap();
    let err = c.set_value("port", "not-a-port").unwrap_err();
    assert!(matches!(err, ConfigError::InvalidValue(_)));
    assert_eq!(c.get_port(), 9090);
    let err = c.set_value("nonexistent", "1").unwrap_err();
    assert!(matches!(err, ConfigError::UnknownKey(k) if k == "nonexistent"));
}

#[test]
fn schema_default_strings() {
    let c = Config::default();
    assert_eq!(c.get_default_string(ConfigKey::app_name), "myapp");
    assert_eq!(c.get_default_string(ConfigKey::verbose), "false");
    assert_eq!(c.get_default_string(ConfigKey::port), "8080");
    assert_eq!(c.get_default_string(ConfigKey::tags), "none");
    for key in ConfigKey::all() {
        assert_eq!(c.get_value(key.as_str()), c.get_default_string(*key));
    }
}
