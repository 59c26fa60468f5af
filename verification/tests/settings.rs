use apto::config::listing::TableLine;
use apto::config::strip_ansi_sequences;
use apto::config::title_of;
use apto::config::types::duration::parse_duration_cli;
use apto::config::types::file_size::parse_file_size_cli;
use apto::config::validators::check_dimensions;
use apto::{Config, ConfigCategory, ConfigError, ConfigKey, DurationValue, FileSizeValue};

#[test]
fn category_lists_cover_all_config_keys_in_order() {
    let categorized_keys: Vec<ConfigKey> = ConfigCategory::all()
        .iter()
        .flat_map(|category| category.keys().into_iter())
        .collect();

    let all_root_keys: Vec<ConfigKey> = ConfigKey::all()
        .iter()
        .copied()
        .filter(|k| k.category().is_none())
        .collect();

    let mut combined = all_root_keys;
    combined.extend(categorized_keys);

    assert_eq!(
        combined.as_slice(),
        ConfigKey::all().as_slice(),
        "Config keys must appear in exactly one category or be a root field"
    );
}

#[test]
fn settings_defaults() {
    let c = Config::default();
    assert_eq!(c.get_video_quality(), 26);
    assert_eq!(c.get_max_upload_retries(), 3);
    assert_eq!(c.get_thumbnail_size(), "320x180");
    assert_eq!(c.get_thumbnail_grid(), "3x3");
    assert_eq!(c.get_output_directory(), "./recordings");
    assert_eq!(c.get_min_free_space(), FileSizeValue::from_gb(20));
    assert_eq!(c.get_monitor_spawn_delay(), DurationValue::from_secs(10));
    assert_eq!(c.get_step_delay(), DurationValue::from_millis(500));
    assert_eq!(c.get_fetch_interval(), DurationValue::from_secs(120));
    assert_eq!(c.get_min_stream_duration(), None);
    assert_eq!(c.get_max_fps(), None);
    assert!(c.get_monitors().is_empty());
    c.validate().unwrap();
}

#[test]
fn settings_value_texts() {
    let c = Config::default();
    assert_eq!(c.get_value("video_quality"), "26");
    assert_eq!(c.get_value("fetch_interval"), "2m");
    assert_eq!(c.get_value("step_delay"), "500ms");
    assert_eq!(c.get_value("min_free_space"), "20GB");
    assert_eq!(c.get_value("max_fps"), "none");
    assert_eq!(c.get_value("monitors"), "none");
    assert_eq!(c.get_value("no_such_setting"), "unknown key");
    for key in ConfigKey::all() {
        assert_eq!(c.get_value(key.as_str()), c.get_default_string(key));
    }
}

#[test]
fn settings_set_get_and_reset() {
    let mut c = Config::default();
    c.set_value("fetch_interval", "30s").unwrap();
    assert_eq!(c.get_fetch_interval(), DurationValue::from_secs(30));
    assert_eq!(c.get_value("fetch_interval"), "30s");
    c.set_value("monitors", "twitch:alice, youtube:bob").unwrap();
    assert_eq!(c.get_monitors(), vec!["twitch:alice", "youtube:bob"]);
    c.set_value("min_free_space", "500MB").unwrap();
    assert_eq!(c.get_min_free_space(), FileSizeValue::from_mb(500));
    c.set_value("max_fps", "60").unwrap();
    assert_eq!(c.get_max_fps(), Some(60));
    c.set_value("max_fps", "none").unwrap();
    assert_eq!(c.get_max_fps(), None);

    assert_eq!(c.reset_key("fetch_interval").unwrap(), "2m");
    assert_eq!(c.get_fetch_interval(), DurationValue::from_secs(120));
    assert_eq!(c.reset_key("monitors").unwrap(), "none");
    assert!(c.get_monitors().is_empty());
    // Other settings keep what was set.
    assert_eq!(c.get_min_free_space(), FileSizeValue::from_mb(500));
}

#[test]
fn settings_set_value_equal_to_default_stores_nothing() {
    let mut c = Config::default();
    c.set_value("video_quality", "26").unwrap();
    assert_eq!(c.video_quality, None);
    c.set_value("video_quality", "20").unwrap();
    assert_eq!(c.video_quality, Some(20));
}

#[test]
fn settings_errors() {
    let mut c = Config::default();
    match c.set_value("nope", "1") {
        Err(ConfigError::UnknownKey(k)) => assert_eq!(k, "nope"),
        other => panic!("unexpected {:?}", other),
    }
    match c.reset_key("nope") {
        Err(ConfigError::UnknownKey(k)) => assert_eq!(k, "nope"),
        other => panic!("unexpected {:?}", other),
    }
    match c.set_value("max_fps", "0") {
        Err(ConfigError::InvalidValue(m)) => {
            assert_eq!(m, "Invalid value for 'max_fps': must be greater than 0")
        }
        other => panic!("unexpected {:?}", other),
    }
    assert_eq!(c.get_max_fps(), None);
    match c.set_value("thumbnail_size", "320by180") {
        Err(ConfigError::InvalidValue(m)) => assert!(m.starts_with("Invalid value for 'thumbnail_size': ")),
        other => panic!("unexpected {:?}", other),
    }
    assert_eq!(c.get_thumbnail_size(), "320x180");
    assert!(c.set_value("fetch_interval", "soon").is_err());
    assert!(c.set_value("video_quality", "-1").is_err());
}

#[test]
fn settings_validate_reports_first_failure() {
    let mut c = Config::default();
    c.max_fps = Some(0);
    c.thumbnail_grid = Some("x".to_string());
    match c.validate() {
        Err(ConfigError::InvalidValue(m)) => {
            assert_eq!(m, "Invalid value for 'max_fps': must be greater than 0")
        }
        other => panic!("unexpected {:?}", other),
    }
    c.max_fps = None;
    assert!(c.validate().is_err());
    c.thumbnail_grid = Some("4x2".to_string());
    c.validate().unwrap();
}

#[test]
fn settings_descriptions_and_categories() {
    let c = Config::default();
    assert_eq!(c.get_description("output_directory"), "Directory to save recordings");
    assert_eq!(c.get_description("nope"), "unknown key");
    assert_eq!(ConfigKey::from_key("max_fps"), Some(ConfigKey::max_fps));
    assert_eq!(ConfigKey::from_key("MAX_FPS"), None);
    assert_eq!(ConfigKey::max_fps.category(), Some(ConfigCategory::video));
    assert_eq!(ConfigCategory::post_processing.display_name(), "Post Processing");
    assert_eq!(ConfigCategory::all().len(), 7);
    for key in ConfigKey::all() {
        assert_eq!(ConfigKey::from_key(key.as_str()), Some(key));
    }
}

#[test]
fn settings_table_lines_with_filter() {
    let mut c = Config::default();
    c.set_value("monitors", "twitch:alice").unwrap();
    let lines = c.table_lines(Some("MONITORS"), false);
    assert_eq!(lines.len(), 1);
    match &lines[0] {
        TableLine::Row(r) => {
            assert_eq!(r.key, "monitors");
            assert_eq!(r.current, "twitch:alice");
            assert_eq!(r.default, "none");
            assert!(r.changed);
            assert!(r.description.is_none());
        }
        TableLine::Section(_) => panic!("a filtered table has no section titles"),
    }
    assert!(c.table_lines(Some("no_such_setting"), false).is_empty());
}

#[test]
fn settings_table_lines_unfiltered() {
    let c = Config::default();
    let lines = c.table_lines(None, true);
    let sections = lines.iter().filter(|l| matches!(l, TableLine::Section(_))).count();
    let rows = lines.iter().filter(|l| matches!(l, TableLine::Row(_))).count();
    assert_eq!(sections, 7);
    assert_eq!(rows, ConfigKey::all().len());
    match &lines[0] {
        TableLine::Section(t) => assert_eq!(t, "Monitoring"),
        TableLine::Row(_) => panic!("the table starts with a section title"),
    }
    match &lines[1] {
        TableLine::Row(r) => {
            assert_eq!(r.key, "monitors");
            assert_eq!(r.description.as_deref(), Some("List of platform_id:username to monitor"));
            assert!(!r.changed);
        }
        TableLine::Section(_) => panic!("a section title is followed by its rows"),
    }
}

#[test]
fn settings_markdown_table() {
    let md = Config::default().markdown_table();
    assert!(md.starts_with("#### Monitoring\n\n"));
    assert!(md.contains("#### Post Processing"));
    assert!(md.contains("`monitors`"));
    assert!(md.contains("`2m`"));
    assert!(md.contains("Directory to save recordings"));
    assert!(!md.contains('\u{1b}'));
    assert!(!md.contains("#### General"));
}

#[test]
fn strip_ansi_removes_escape_sequences() {
    assert_eq!(strip_ansi_sequences("\u{1b}[1;31mred\u{1b}[0m text"), "red text");
    assert_eq!(strip_ansi_sequences("plain"), "plain");
    assert_eq!(strip_ansi_sequences("cut \u{1b}[1"), "cut ");
    assert_eq!(strip_ansi_sequences(""), "");
}

#[test]
fn titles_of_names() {
    assert_eq!(title_of("post_processing"), "Post Processing");
    assert_eq!(title_of("__a__b"), "A B");
    assert_eq!(title_of(""), "");
}

#[test]
fn dimensions_check() {
    assert!(check_dimensions("320x180"));
    assert!(check_dimensions("3x3"));
    assert!(!check_dimensions("0x3"));
    assert!(!check_dimensions("3x"));
    assert!(!check_dimensions("x3"));
    assert!(!check_dimensions("3x3x3"));
    assert!(!check_dimensions("3X3"));
}

#[test]
fn cli_parsers() {
    assert_eq!(parse_duration_cli("90s").unwrap(), DurationValue::from_secs(90));
    assert_eq!(parse_duration_cli("1h").unwrap(), DurationValue::from_secs(3600));
    match parse_duration_cli("later") {
        Err(ConfigError::InvalidValue(m)) => assert_eq!(
            m,
            "Invalid duration 'later': expected a number followed by ms, s, m, h or d"
        ),
        other => panic!("unexpected {:?}", other),
    }
    assert_eq!(parse_file_size_cli("20GB").unwrap(), FileSizeValue::from_gb(20));
    assert_eq!(parse_file_size_cli("3MiB").unwrap(), FileSizeValue::from_mib(3));
    assert!(parse_file_size_cli("lots").is_err());
}

#[test]
fn settings_filter_is_lowercased_before_matching() {
    // U+212A KELVIN SIGN lowercases to an ASCII `k`, which then matches the key's name.
    let c = Config::default();
    let lines = c.table_lines(Some("DISCORD_WEBHOO\u{212A}_URL"), false);
    assert_eq!(lines.len(), 1);
    match &lines[0] {
        TableLine::Row(r) => assert_eq!(r.key, "discord_webhook_url"),
        TableLine::Section(_) => panic!("a filtered table has no section titles"),
    }
}
