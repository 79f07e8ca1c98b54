use m_core::config::{
    get, get_clone, get_data_dir, get_data_dir_name, load, reload, AppConfig, CheckLog, ConfigError,
    Loaded,
};
use m_core::effect::{FsRequest, PathFacts, PathKind, Step};
use m_core::file::{cd_test, cd_with};

#[test]
fn default_data_directory() {
    let config = AppConfig::default();
    assert_eq!(config.data_dir_name(), "data");
    assert_eq!(config.data_dir("/work"), "/work/data");
}

#[test]
fn paths_below_the_working_directory() {
    assert_eq!(cd_with("/work", "config.toml"), "/work/config.toml");
    assert_eq!(cd_with("/work/", "a/b"), "/work/a/b");
    assert_eq!(cd_with("/work", "/abs"), "/abs");
    assert_eq!(cd_with("", "x"), "x");
    assert_eq!(cd_test("/work"), "/work/.test");
}

#[test]
fn load_maps_what_was_read() {
    assert_eq!(load(Loaded::Config("d".to_string())), Ok(AppConfig::with_data_dir("d".to_string())));
    assert_eq!(load(Loaded::Unreadable), Err(ConfigError::LoadError));
    assert_eq!(
        load(Loaded::Malformed("missing field".to_string())),
        Err(ConfigError::ParseError("missing field".to_string()))
    );
}

#[test]
fn reload_replaces_or_keeps() {
    let mut config = AppConfig::default();
    assert_eq!(reload(&mut config, Loaded::Config("store".to_string())), Ok(()));
    assert_eq!(config.data_dir_name(), "store");
    assert_eq!(reload(&mut config, Loaded::Unreadable), Err(ConfigError::LoadError));
    assert_eq!(config.data_dir_name(), "store");
    assert_eq!(
        reload(&mut config, Loaded::Malformed("bad".to_string())),
        Err(ConfigError::ParseError("bad".to_string()))
    );
    assert_eq!(config.data_dir_name(), "store");
}

#[test]
fn getters_read_the_configuration() {
    let config = AppConfig::with_data_dir("store".to_string());
    assert_eq!(get(&config), Ok(&config));
    assert_eq!(get_clone(&config), Ok(config.clone()));
    assert_eq!(get_data_dir_name(&config), Ok("store".to_string()));
    assert_eq!(get_data_dir(&config, "/work"), Ok("/work/store".to_string()));
}

#[test]
fn check_creates_a_missing_data_directory() {
    let config = AppConfig::default();
    let mut log = CheckLog::new();
    assert_eq!(config.check("/work", &log).requests(), Step::Need(FsRequest::Inspect("/work/data".to_string())));
    log.dir = Some(PathFacts { kind: PathKind::Directory, extension: None });
    assert_eq!(config.check("/work", &log).requests(), Step::Done(Ok(())));
    log.dir = Some(PathFacts { kind: PathKind::Missing, extension: None });
    assert_eq!(
        config.check("/work", &log).requests(),
        Step::Need(FsRequest::CreateDirAll("/work/data".to_string()))
    );
    log.created = Some(Err("denied".to_string()));
    assert_eq!(
        config.check("/work", &log).requests(),
        Step::Done(Err(ConfigError::FileError("denied".to_string())))
    );
    log.created = Some(Ok(()));
    assert_eq!(config.check("/work", &log).requests(), Step::Done(Ok(())));
}

#[test]
fn config_error_messages() {
    assert_eq!(
        ConfigError::FileError("e".to_string()).to_text(),
        "Failed to read/write config from file: e"
    );
    assert_eq!(ConfigError::LoadError.to_text(), "Failed to load config from file or env");
    assert_eq!(ConfigError::ParseError("e".to_string()).to_text(), "Failed to parse config: e");
    assert_eq!(
        ConfigError::SerializationError("e".to_string()).to_text(),
        "Failed to serialize config: e"
    );
    assert_eq!(ConfigError::LockError.to_text(), "Failed to acquire lock");
}
