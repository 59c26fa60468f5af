use apto::config::types::{Duration, FileSize};
use apto::{
    ArrayOf, Bool, ConfigError, ConfigTable, ConfigType, DurationValue, FileSizeValue, List, NoValidation,
    Optional, Required, TableList, Text, I32, U32, U64,
};
use std::time::Duration as StdDuration;

// ---------------------------------------------------------------- arrays

#[test]
fn array_of_u32_parses_csv() {
    let default = Vec::<u32>::new();
    let parsed = ArrayOf::<U32>::parse("1, 2, 3", &default)
        .expect("valid CSV should parse")
        .expect("should not be None");
    assert_eq!(parsed, vec![Some(1u32), Some(2u32), Some(3u32)]);
}

#[test]
fn array_of_u32_gets_default_when_absent() {
    let default = vec![42u32];
    let val = ArrayOf::<U32>::get(&None, &default);
    assert_eq!(val, vec![42u32]);
}

#[test]
fn array_of_text_parses_csv() {
    let default = Vec::<String>::new();
    let parsed = ArrayOf::<Text>::parse("hello, world", &default)
        .expect("valid CSV should parse")
        .expect("should not be None");
    assert_eq!(
        parsed,
        vec![Some("hello".to_string()), Some("world".to_string())]
    );
}

#[test]
fn array_of_accepts_none() {
    let default = vec!["a".to_string()];
    let result = ArrayOf::<Text>::parse("none", &default).unwrap();
    assert!(result.is_none());
}

#[test]
fn array_of_bool_parses() {
    let default = Vec::new();
    let parsed = ArrayOf::<Bool>::parse("true, false", &default)
        .expect("valid CSV should parse")
        .expect("should not be None");
    assert_eq!(parsed, vec![Some(true), None]);
}

#[test]
fn array_of_u32_round_trips_format() {
    let default = vec![0u32];
    let stored = Some(vec![Some(1u32), Some(2u32), Some(3u32)]);
    let formatted = ArrayOf::<U32>::format(&stored, &default);
    assert_eq!(formatted, "1, 2, 3");
}

#[test]
fn array_of_u32_round_trips_get() {
    let default = vec![0u32];
    let stored = Some(vec![Some(1u32), Some(2u32)]);
    let val = ArrayOf::<U32>::get(&stored, &default);
    assert_eq!(val, vec![1u32, 2u32]);
}

#[test]
fn array_of_u32_reports_the_bad_item() {
    let default = Vec::<u32>::new();
    let err = ArrayOf::<U32>::parse("1, x2, 3", &default).unwrap_err();
    assert_eq!(err.message(), "invalid 'x2': invalid u32: 'x2'");
}

#[test]
fn array_of_format_of_empty_default_is_none() {
    let default = Vec::<u32>::new();
    assert_eq!(ArrayOf::<U32>::format(&None, &default), "none");
    assert_eq!(ArrayOf::<U32>::format(&None, &vec![4u32, 5]), "4, 5");
}

#[test]
fn array_of_stored_from_default() {
    assert_eq!(ArrayOf::<U32>::stored_from_default(&Vec::new()), None);
    assert_eq!(
        ArrayOf::<U32>::stored_from_default(&vec![7u32]),
        Some(vec![Some(7u32)])
    );
}

#[test]
fn array_of_bool_write_with_matching_fallback_reads_positional_default() {
    // The item `false` equals the type's fallback default, so it is stored as `None` and
    // then read against the positional default.
    let default = vec![true, true];
    let parsed = ArrayOf::<Bool>::parse("true, false", &default).unwrap();
    assert_eq!(ArrayOf::<Bool>::get(&parsed, &default), vec![true, true]);
}

// ---------------------------------------------------------------- booleans

#[test]
fn required_bool_default() {
    let default = true;
    assert!(Bool::<NoValidation, Required>::get(&None, &default));
    assert!(!Bool::<NoValidation, Required>::get(&Some(false), &default));
}

#[test]
fn bool_parse_variants() {
    let default = false;
    assert_eq!(
        Bool::<NoValidation, Required>::parse("true", &default).unwrap(),
        Some(true)
    );
    assert_eq!(
        Bool::<NoValidation, Required>::parse("yes", &default).unwrap(),
        Some(true)
    );
    assert_eq!(
        Bool::<NoValidation, Required>::parse("1", &default).unwrap(),
        Some(true)
    );
    assert_eq!(
        Bool::<NoValidation, Required>::parse("on", &default).unwrap(),
        Some(true)
    );
    assert_eq!(
        Bool::<NoValidation, Required>::parse("false", &default).unwrap(),
        None
    );
}

#[test]
fn bool_rejects_invalid() {
    let default = false;
    assert!(Bool::<NoValidation, Required>::parse("maybe", &default).is_err());
}

#[test]
fn bool_parse_trims_and_ignores_case() {
    let default = true;
    assert_eq!(
        Bool::<NoValidation, Required>::parse("  OFF \t", &default).unwrap(),
        Some(false)
    );
    assert_eq!(
        Bool::<NoValidation, Required>::parse("Yes", &default).unwrap(),
        None
    );
}

#[test]
fn bool_error_message_is_lowercased() {
    let err = Bool::<NoValidation, Required>::parse(" MAYBE ", &false).unwrap_err();
    assert_eq!(
        err.message(),
        "invalid boolean: 'maybe' (expected true/false/yes/no/1/0)"
    );
}

#[test]
fn bool_required_rejects_none_and_optional_clears() {
    let err = Bool::<NoValidation, Required>::parse("NONE", &false).unwrap_err();
    assert_eq!(
        err.message(),
        "'none' is not valid for a required boolean field"
    );
    assert_eq!(
        Bool::<NoValidation, Optional>::parse("None", &Some(true)).unwrap(),
        None
    );
    assert_eq!(Bool::<NoValidation, Optional>::get(&None, &Some(true)), Some(true));
}

#[test]
fn bool_format() {
    assert_eq!(Bool::<NoValidation, Required>::format(&None, &true), "true");
    assert_eq!(Bool::<NoValidation, Optional>::format(&None, &None), "none");
    assert_eq!(Bool::<NoValidation, Optional>::format(&Some(false), &None), "false");
}

// ---------------------------------------------------------------- lists

#[test]
fn required_list_default() {
    let default = vec!["a".to_string(), "b".to_string()];
    assert_eq!(
        List::<NoValidation, Required>::get(&None, &default),
        vec!["a".to_string(), "b".to_string()]
    );
}

#[test]
fn list_parse_csv() {
    let default = Vec::<String>::new();
    assert_eq!(
        List::<NoValidation, Required>::parse("one, two", &default).unwrap(),
        Some(vec!["one".to_string(), "two".to_string()])
    );
}

#[test]
fn list_normalizes_default() {
    let default = vec!["a".to_string(), "b".to_string()];
    assert_eq!(
        List::<NoValidation, Required>::parse("a, b", &default).unwrap(),
        None
    );
}

#[test]
fn list_format_and_optional() {
    let default = Vec::<String>::new();
    assert_eq!(List::<NoValidation, Required>::format(&None, &default), "none");
    assert_eq!(
        List::<NoValidation, Required>::format(&Some(vec!["x".to_string(), "y".to_string()]), &default),
        "x, y"
    );
    let od = Some(vec!["a".to_string()]);
    assert_eq!(List::<NoValidation, Optional>::parse("a", &od).unwrap(), None);
    assert_eq!(
        List::<NoValidation, Optional>::parse("a,,b", &od).unwrap(),
        Some(vec!["a".to_string(), "".to_string(), "b".to_string()])
    );
    assert_eq!(List::<NoValidation, Optional>::format(&None, &None), "none");
}

#[test]
fn list_required_rejects_none() {
    let default = vec!["a".to_string()];
    assert!(List::<NoValidation, Required>::parse("none", &default).is_err());
    match List::<NoValidation, Required>::parse("NONE", &default) {
        Err(ConfigError::InvalidValue(m)) => {
            assert_eq!(m, "'none' is not valid for a required list field")
        }
        other => panic!("unexpected {:?}", other),
    }
    let od = Some(vec!["a".to_string()]);
    assert_eq!(List::<NoValidation, Optional>::parse("none", &od).unwrap(), None);
}

#[test]
fn list_format_parses_back() {
    let default = vec!["a".to_string()];
    let stored = Some(vec!["alpha".to_string(), "beta gamma".to_string(), "".to_string()]);
    let text = List::<NoValidation, Required>::format(&stored, &default);
    assert_eq!(text, "alpha, beta gamma, ");
    let back = List::<NoValidation, Required>::parse(&text, &default).unwrap();
    assert_eq!(
        List::<NoValidation, Required>::get(&back, &default),
        List::<NoValidation, Required>::get(&stored, &default)
    );
    let text = List::<NoValidation, Required>::format(&None, &default);
    let back = List::<NoValidation, Required>::parse(&text, &default).unwrap();
    assert_eq!(back, None);
}

// ---------------------------------------------------------------- numbers

#[test]
fn u32_required_default() {
    let default = 26u32;
    assert_eq!(U32::<NoValidation, Required>::get(&None, &default), 26);
    assert_eq!(U32::<NoValidation, Required>::get(&Some(30), &default), 30);
}

#[test]
fn u32_required_rejects_none() {
    assert!(U32::<NoValidation, Required>::parse("none", &26u32).is_err());
}

#[test]
fn u32_optional_accepts_none() {
    let default = Some(12u32);
    assert_eq!(
        U32::<NoValidation, Optional>::parse("none", &default).unwrap(),
        None
    );
    assert_eq!(
        U32::<NoValidation, Optional>::get(&None, &default),
        Some(12)
    );
}

#[test]
fn u64_large_values() {
    let default = 1_000_000_000_000u64;
    assert_eq!(
        U64::<NoValidation, Required>::get(&None, &default),
        1_000_000_000_000
    );
    assert_eq!(
        U64::<NoValidation, Required>::format(&None, &default),
        "1000000000000"
    );
}

#[test]
fn i32_signed_values() {
    let default = -5i32;
    assert_eq!(I32::<NoValidation, Required>::get(&None, &default), -5);
    assert_eq!(I32::<NoValidation, Required>::get(&Some(10), &default), 10);
}

#[test]
fn number_parse_follows_str_parse() {
    assert_eq!(U32::<NoValidation, Required>::parse("+7", &0).unwrap(), Some(7));
    assert_eq!(U32::<NoValidation, Required>::parse("0042", &0).unwrap(), Some(42));
    assert!(U32::<NoValidation, Required>::parse("-0", &1).is_err());
    assert!(U32::<NoValidation, Required>::parse(" 7", &0).is_err());
    assert!(U32::<NoValidation, Required>::parse("+", &0).is_err());
    assert!(U32::<NoValidation, Required>::parse("", &0).is_err());
    assert!(U32::<NoValidation, Required>::parse("4294967296", &0).is_err());
    assert_eq!(
        U32::<NoValidation, Required>::parse("4294967295", &0).unwrap(),
        Some(u32::MAX)
    );
    assert_eq!(I32::<NoValidation, Required>::parse("-2147483648", &0).unwrap(), Some(i32::MIN));
    assert!(I32::<NoValidation, Required>::parse("2147483648", &0).is_err());
    assert_eq!(
        U64::<NoValidation, Required>::parse("18446744073709551615", &0).unwrap(),
        Some(u64::MAX)
    );
    assert!(U64::<NoValidation, Required>::parse("99999999999999999999999999", &0).is_err());
}

#[test]
fn number_errors_name_the_type_and_input() {
    let err = U32::<NoValidation, Required>::parse("abc", &0).unwrap_err();
    assert_eq!(err.message(), "invalid u32: 'abc'");
    let err = I32::<NoValidation, Required>::parse("none", &0).unwrap_err();
    assert_eq!(err.message(), "'none' is not valid for a required i32 field");
}

#[test]
fn number_equal_to_default_is_not_stored() {
    assert_eq!(U32::<NoValidation, Required>::parse("26", &26).unwrap(), None);
    assert_eq!(U32::<NoValidation, Optional>::parse("26", &Some(26)).unwrap(), None);
    assert_eq!(U32::<NoValidation, Optional>::parse("26", &None).unwrap(), Some(26));
}

#[test]
fn number_format_round_trips() {
    for v in [i32::MIN, -1, 0, 9, 10, i32::MAX] {
        let text = I32::<NoValidation, Required>::format(&Some(v), &0);
        assert_eq!(text, v.to_string());
        let stored = I32::<NoValidation, Required>::parse(&text, &0).unwrap();
        assert_eq!(I32::<NoValidation, Required>::get(&stored, &0), v);
    }
    assert_eq!(U32::<NoValidation, Optional>::format(&None, &None), "none");
}

// ---------------------------------------------------------------- tables

#[derive(Debug, Clone, Default, PartialEq)]
struct Entry {
    name: String,
    value: Option<u32>,
}

impl ConfigTable for Entry {
    fn from_json_list(input: &str) -> Result<Vec<Self>, String> {
        let parsed: serde_json::Value = serde_json::from_str(input).map_err(|e| e.to_string())?;
        let items = parsed.as_array().ok_or_else(|| "expected an array".to_string())?;
        let mut out = Vec::new();
        for item in items {
            let name = item
                .get("name")
                .and_then(|n| n.as_str())
                .ok_or_else(|| "missing field `name`".to_string())?
                .to_string();
            let value = match item.get("value") {
                None | Some(serde_json::Value::Null) => None,
                Some(v) => Some(v.as_u64().ok_or_else(|| "invalid value".to_string())? as u32),
            };
            out.push(Entry { name, value });
        }
        Ok(out)
    }

    fn to_json_list(values: &[Self]) -> Option<String> {
        let items: Vec<serde_json::Value> = values
            .iter()
            .map(|e| {
                let mut m = serde_json::Map::new();
                m.insert("name".to_string(), serde_json::Value::String(e.name.clone()));
                m.insert(
                    "value".to_string(),
                    match e.value {
                        Some(v) => serde_json::Value::from(v),
                        None => serde_json::Value::Null,
                    },
                );
                serde_json::Value::Object(m)
            })
            .collect();
        serde_json::to_string(&serde_json::Value::Array(items)).ok()
    }
}

#[test]
fn table_list_parse_json() {
    let default = Vec::<Entry>::new();
    let json = r#"[{"name":"foo","value":42}]"#;
    let parsed = TableList::<Entry, NoValidation>::parse(json, &default)
        .expect("valid JSON should parse")
        .expect("should not be None");
    assert_eq!(parsed.len(), 1);
    assert_eq!(parsed[0].name, "foo");
    assert_eq!(parsed[0].value, Some(42));
}

#[test]
fn table_list_none_clears() {
    let default = vec![Entry {
        name: "default".to_string(),
        value: None,
    }];
    assert_eq!(
        TableList::<Entry, NoValidation>::parse("none", &default).unwrap(),
        None
    );
}

#[test]
fn table_list_default_and_errors() {
    let default = vec![Entry { name: "d".to_string(), value: Some(1) }];
    assert_eq!(
        TableList::<Entry, NoValidation>::parse(r#"[{"name":"d","value":1}]"#, &default).unwrap(),
        None
    );
    let err = TableList::<Entry, NoValidation>::parse("[", &default).unwrap_err();
    assert!(err.message().starts_with("invalid table list JSON: "));
    assert_eq!(TableList::<Entry, NoValidation>::get(&None, &default), default);
    assert_eq!(
        TableList::<Entry, NoValidation>::format(&None, &default),
        r#"[{"name":"d","value":1}]"#
    );
    assert_eq!(TableList::<Entry, NoValidation>::text_or_none(None), "none");
}

// ---------------------------------------------------------------- text

#[test]
fn required_text_uses_default_when_absent() {
    let default = "hello".to_string();
    assert_eq!(
        Text::<NoValidation, Required>::get(&None, &default),
        "hello"
    );
    assert_eq!(
        Text::<NoValidation, Required>::get(&Some("world".to_string()), &default),
        "world"
    );
}

#[test]
fn required_text_rejects_none() {
    let default = "hello".to_string();
    assert!(Text::<NoValidation, Required>::parse("none", &default).is_err());
}

#[test]
fn optional_text_accepts_none() {
    let default = Some("hello".to_string());
    assert_eq!(
        Text::<NoValidation, Optional>::parse("none", &default).unwrap(),
        None
    );
    assert_eq!(
        Text::<NoValidation, Optional>::get(&None, &default),
        Some("hello".to_string())
    );
}

#[test]
fn text_keeps_input_as_written() {
    let default = "hello".to_string();
    assert_eq!(
        Text::<NoValidation, Required>::parse("  spaced  ", &default).unwrap(),
        Some("  spaced  ".to_string())
    );
    assert_eq!(Text::<NoValidation, Required>::parse("hello", &default).unwrap(), None);
    assert_eq!(Text::<NoValidation, Optional>::format(&None, &None), "none");
    assert_eq!(Text::<NoValidation, Required>::format_default(&default), "hello");
}

// ---------------------------------------------------------------- durations and file sizes

#[test]
fn duration_required_default() {
    let default = DurationValue::from_millis(500);
    assert_eq!(
        Duration::<NoValidation, Required>::get(&None, &default).as_millis() as u128,
        StdDuration::from_millis(500).as_millis()
    );
    assert_eq!(
        Duration::<NoValidation, Required>::get(&Some(DurationValue::from_secs(2)), &default).as_millis()
            as u128,
        StdDuration::from_secs(2).as_millis()
    );
}

#[test]
fn required_rejects_none() {
    let default = DurationValue::from_millis(500);
    assert!(Duration::<NoValidation, Required>::parse("none", &default).is_err());
}

#[test]
fn optional_accepts_none() {
    let default = Some(DurationValue::from_secs(90));
    assert_eq!(
        Duration::<NoValidation, Optional>::parse("none", &default).unwrap(),
        None
    );
    assert_eq!(
        Duration::<NoValidation, Optional>::get(&None, &default).map(|d| d.as_millis() as u128),
        Some(StdDuration::from_secs(90).as_millis())
    );
}

#[test]
fn duration_units_parse_and_format() {
    let d = DurationValue::from_millis(0);
    let read = |s: &str| {
        Duration::<NoValidation, Required>::parse(s, &d)
            .unwrap()
            .map(|v| v.as_millis())
    };
    assert_eq!(read("500ms"), Some(500));
    assert_eq!(read("90s"), Some(90_000));
    assert_eq!(read("5m"), Some(300_000));
    assert_eq!(read("1h"), Some(3_600_000));
    assert_eq!(read("7d"), Some(604_800_000));
    assert!(Duration::<NoValidation, Required>::parse("5 m", &d).is_err());
    assert!(Duration::<NoValidation, Required>::parse("m", &d).is_err());
    let err = Duration::<NoValidation, Required>::parse("5x", &d).unwrap_err();
    assert_eq!(
        err.message(),
        "Invalid duration '5x': expected a number followed by ms, s, m, h or d"
    );
    for ms in [0u64, 1, 999, 1000, 90_000, 120_000, 3_600_000, 86_400_000, 90_061_001] {
        let v = DurationValue::from_millis(ms);
        let text = v.to_text();
        assert_eq!(DurationValue::parse_text(&text), Some(v));
    }
    assert_eq!(DurationValue::from_secs(120).to_text(), "2m");
    assert_eq!(DurationValue::from_millis(1500).to_text(), "1500ms");
}

#[test]
fn file_size_required_default() {
    let default = FileSizeValue::from_mib(2);
    assert_eq!(
        FileSize::<NoValidation, Required>::get(&None, &default),
        default
    );
    assert_eq!(
        FileSize::<NoValidation, Required>::get(&Some(FileSizeValue::from_mib(5)), &default),
        FileSizeValue::from_mib(5)
    );
}

#[test]
fn file_size_units_parse_and_format() {
    let d = FileSizeValue::from_bytes(0);
    let read = |s: &str| {
        FileSize::<NoValidation, Required>::parse(s, &d)
            .unwrap()
            .map(|v| v.as_bytes())
    };
    assert_eq!(read("20GB"), Some(20_000_000_000));
    assert_eq!(read("500MB"), Some(500_000_000));
    assert_eq!(read("2MiB"), Some(2 * 1024 * 1024));
    assert_eq!(read("1KiB"), Some(1024));
    assert_eq!(read("7B"), Some(7));
    assert!(FileSize::<NoValidation, Required>::parse("20gb", &d).is_err());
    assert!(FileSize::<NoValidation, Required>::parse("20000000000TB", &d).is_err());
    assert_eq!(FileSizeValue::from_gb(20).to_text(), "20GB");
    assert_eq!(FileSizeValue::from_mib(3).to_text(), "3MiB");
    for b in [0u64, 1, 1000, 1024, 1_048_576, 20_000_000_000, 123_456_789] {
        let v = FileSizeValue::from_bytes(b);
        assert_eq!(FileSizeValue::parse_text(&v.to_text()), Some(v));
    }
}
