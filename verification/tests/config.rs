use featherfly::config::{
    apply_debug_overrides, resolve_config_path, validate_inner, ApiConfig, ConfigError, InnerConfig,
    LogRotation,
};

#[test]
fn resolve_config_path_debug_uses_local_config() {
    let path = resolve_config_path(true, None, false, Some("/srv/featherfly")).unwrap();
    assert!(path.ends_with("config.yml"));
    assert_eq!(path, "/srv/featherfly/config.yml");
}

#[test]
fn resolve_config_path_production_uses_etc() {
    let path = resolve_config_path(false, None, false, Some("/srv/featherfly")).unwrap();
    assert_eq!(path, "/etc/featherfly/config.yml");
}

#[test]
fn resolve_config_path_explicit_flag_wins() {
    let path = resolve_config_path(false, Some("/custom/config.yml"), true, None).unwrap();
    assert_eq!(path, "/custom/config.yml");
}

#[test]
fn validate_inner_rejects_zero_port() {
    let inner = InnerConfig {
        api: ApiConfig { host: "127.0.0.1".into(), port: 0 },
        ..Default::default()
    };

    let error = validate_inner(&inner).unwrap_err();
    assert!(error.message().contains("api.port"));
}

#[test]
fn debug_mode_without_working_directory_fails() {
    assert_eq!(resolve_config_path(true, None, false, None), Err(ConfigError::NoWorkingDirectory));
}

#[test]
fn default_configuration_is_valid() {
    assert!(validate_inner(&InnerConfig::default()).is_ok());
}

#[test]
fn empty_root_directory_is_refused() {
    let mut inner = InnerConfig::default();
    inner.system.root_directory = String::new();
    assert_eq!(validate_inner(&inner), Err(ConfigError::EmptyRootDirectory));
    assert_eq!(ConfigError::EmptyRootDirectory.message(), "system.root_directory must not be empty");
}

#[test]
fn debug_override_only_switches_debug_on() {
    let inner = apply_debug_overrides(InnerConfig::default(), true);
    assert!(inner.debug);
    let inner = apply_debug_overrides(inner, false);
    assert!(inner.debug);
}

#[test]
fn log_rotation_names() {
    assert_eq!(LogRotation::Daily.as_str(), "daily");
    assert_eq!(LogRotation::Hourly.as_str(), "hourly");
    assert_eq!(LogRotation::Never.as_str(), "never");
}
