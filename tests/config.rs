use better_duck_core::config::{check_path, in_memory, setting_result, AccessMode, Config, DefaultNullOrder, DefaultOrder};
use better_duck_core::error::{Error, STATE_ERROR, STATE_SUCCESS};

#[test]
fn test_access_mode_enum() {
    assert_eq!(AccessMode::Automatic.to_string(), "AUTOMATIC");
    assert_eq!(AccessMode::ReadOnly.to_string(), "READ_ONLY");
    assert_eq!(AccessMode::ReadWrite.to_string(), "READ_WRITE");
    assert_eq!("AUTOMATIC".parse::<AccessMode>().unwrap(), AccessMode::Automatic);
    assert_eq!("READ_ONLY".parse::<AccessMode>().unwrap(), AccessMode::ReadOnly);
    assert_eq!("READ_WRITE".parse::<AccessMode>().unwrap(), AccessMode::ReadWrite);
}

#[test]
fn test_default_order_enum() {
    assert_eq!(DefaultOrder::Asc.to_string(), "ASC");
    assert_eq!(DefaultOrder::Desc.to_string(), "DESC");
    assert_eq!("ASC".parse::<DefaultOrder>().unwrap(), DefaultOrder::Asc);
    assert_eq!("DESC".parse::<DefaultOrder>().unwrap(), DefaultOrder::Desc);
}

#[test]
fn test_default_null_order_enum() {
    assert_eq!(DefaultNullOrder::NullsFirst.to_string(), "NULLS_FIRST");
    assert_eq!(DefaultNullOrder::NullsLast.to_string(), "NULLS_LAST");
    assert_eq!(
        "NULLS_FIRST".parse::<DefaultNullOrder>().unwrap(),
        DefaultNullOrder::NullsFirst
    );
    assert_eq!("NULLS_LAST".parse::<DefaultNullOrder>().unwrap(), DefaultNullOrder::NullsLast);
}

#[test]
fn test_enable_autoload_extension() {
    let config = Config::default().enable_autoload_extension(true, STATE_SUCCESS, STATE_SUCCESS);
    assert!(config.is_ok());
    let config = Config::default().enable_autoload_extension(false, STATE_SUCCESS, STATE_SUCCESS);
    assert!(config.is_ok());
}

#[test]
fn test_access_mode_method() {
    let config = Config::default().access_mode(AccessMode::ReadOnly, STATE_SUCCESS);
    assert!(config.is_ok());
}

#[test]
fn test_custom_user_agent() {
    let config = Config::default().custom_user_agent("my-agent/1.0", STATE_SUCCESS);
    assert!(config.is_ok());
}

#[test]
fn test_default_order_method() {
    let config = Config::default().default_order(DefaultOrder::Desc, STATE_SUCCESS);
    assert!(config.is_ok());
}

#[test]
fn test_default_null_order_method() {
    let config = Config::default().default_null_order(DefaultNullOrder::NullsLast, STATE_SUCCESS);
    assert!(config.is_ok());
}

#[test]
fn test_enable_external_access() {
    let config = Config::default().enable_external_access(true, STATE_SUCCESS);
    assert!(config.is_ok());
}

#[test]
fn test_enable_object_cache() {
    let config = Config::default().enable_object_cache(true, STATE_SUCCESS);
    assert!(config.is_ok());
}

#[test]
fn test_allow_unsigned_extensions() {
    let config = Config::default().allow_unsigned_extensions(STATE_SUCCESS);
    assert!(config.is_ok());
}

#[test]
fn test_max_memory() {
    let config = Config::default().max_memory("512MB", STATE_SUCCESS);
    assert!(config.is_ok());
}

#[test]
fn test_threads() {
    let config = Config::default().threads(8, STATE_SUCCESS);
    assert!(config.is_ok());
}

#[test]
fn test_with() {
    // the engine's validator refuses a key it does not know
    let config = Config::default().with("some_key", "some_value", STATE_ERROR);
    assert!(config.is_err());
}

#[test]
fn test_set_multiple_options() {
    let config = Config::default()
        .enable_autoload_extension(true, STATE_SUCCESS, STATE_SUCCESS)
        .and_then(|c| c.access_mode(AccessMode::ReadWrite, STATE_SUCCESS))
        .and_then(|c| c.max_memory("1GB", STATE_SUCCESS))
        .and_then(|c| c.threads(4, STATE_SUCCESS));
    assert!(config.is_ok());
}

#[test]
fn test_config_drop() {
    // Just ensure drop does not panic
    let config = Config::default().enable_autoload_extension(true, STATE_SUCCESS, STATE_SUCCESS).unwrap();
    drop(config);
}

fn settings(c: &Config) -> Vec<(String, String)> {
    (0..c.len()).map(|i| {
        let (k, v) = c.setting(i);
        (k.to_string(), v.to_string())
    }).collect()
}

#[test]
fn settings_are_kept_in_order_with_engine_text() {
    let c = Config::default()
        .enable_autoload_extension(true, STATE_SUCCESS, STATE_SUCCESS)
        .and_then(|c| c.threads(-42, STATE_SUCCESS))
        .and_then(|c| c.enable_object_cache(false, STATE_SUCCESS))
        .and_then(|c| c.default_null_order(DefaultNullOrder::NullsLast, STATE_SUCCESS))
        .unwrap()
        .with_api_marker(STATE_SUCCESS)
        .unwrap();
    let expected: Vec<(String, String)> = vec![
        ("autoinstall_known_extensions".to_string(), "1".to_string()),
        ("autoload_known_extensions".to_string(), "1".to_string()),
        ("threads".to_string(), "-42".to_string()),
        ("enable_object_cache".to_string(), "false".to_string()),
        ("default_null_order".to_string(), "NULLS_LAST".to_string()),
        ("duckdb_api".to_string(), "rust".to_string()),
    ];
    assert_eq!(settings(&c), expected);
}

#[test]
fn threads_text_covers_extremes() {
    let c = Config::default().threads(i64::MIN, STATE_SUCCESS).and_then(|c| c.threads(0, STATE_SUCCESS)).and_then(|c| c.threads(i64::MAX, STATE_SUCCESS)).unwrap();
    let s = settings(&c);
    assert_eq!(s[0].1, "-9223372036854775808");
    assert_eq!(s[1].1, "0");
    assert_eq!(s[2].1, "9223372036854775807");
}

#[test]
fn unknown_names_do_not_parse() {
    assert!("automatic".parse::<AccessMode>().is_err());
    assert!("".parse::<DefaultOrder>().is_err());
    assert!(DefaultNullOrder::from_name("NULLS").is_none());
}

#[test]
fn paths_with_nul_bytes_are_rejected() {
    assert!(check_path(in_memory().as_bytes()).is_ok());
    assert!(check_path(b"/tmp/db.duckdb").is_ok());
    assert!(matches!(check_path(b"/tmp/a\0b"), Err(Error::InvalidPath)));
}

#[test]
fn refused_setting_names_key_and_value() {
    assert!(setting_result("threads", "4", 0).is_ok());
    match setting_result("no_such_key", "x", 1) {
        Err(Error::EngineFailure { code, message }) => {
            assert_eq!(code, 1);
            assert_eq!(message.as_deref(), Some("set no_such_key:x error"));
        },
        other => panic!("unexpected {:?}", other),
    }
}

#[test]
fn refused_setting_leaves_configuration_unchanged() {
    let mut c = Config::default().with("threads", "4", STATE_SUCCESS).unwrap();
    match c.set("no_such_key", "x", STATE_ERROR) {
        Err(Error::EngineFailure { code, message }) => {
            assert_eq!(code, STATE_ERROR);
            assert_eq!(message.as_deref(), Some("set no_such_key:x error"));
        },
        other => panic!("unexpected {:?}", other),
    }
    assert_eq!(settings(&c), vec![("threads".to_string(), "4".to_string())]);
    assert!(c.set("max_memory", "1GB", STATE_SUCCESS).is_ok());
    assert_eq!(c.len(), 2);
}

#[test]
fn builders_report_the_engine_refusal() {
    let e = Config::default().access_mode(AccessMode::ReadOnly, 7).unwrap_err();
    match e {
        Error::EngineFailure { code, message } => {
            assert_eq!(code, 7);
            assert_eq!(message.as_deref(), Some("set access_mode:READ_ONLY error"));
        },
        other => panic!("unexpected {:?}", other),
    }
    let e = Config::default().enable_autoload_extension(false, STATE_SUCCESS, STATE_ERROR).unwrap_err();
    assert!(matches!(e, Error::EngineFailure { message: Some(ref m), .. } if m == "set autoload_known_extensions:0 error"));
}
