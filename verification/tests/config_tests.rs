use gewe_cc::config::{
    default_gewe_cli_command, default_timeout, Config, ConfigError, ConfigManager,
    GeweCliConfig, NotificationConfig, RemoteConfig,
};

fn test_config(wxid: &str, listen: &str, enabled: bool) -> Config {
    Config {
        remote: RemoteConfig { enabled },
        notification: NotificationConfig {
            channel: "wechat".to_string(),
            wxid: wxid.to_string(),
            listen: listen.to_string(),
            transcript_domain: String::new(),
        },
        gewe_cli: GeweCliConfig { command: default_gewe_cli_command(), timeout: default_timeout() },
    }
}

#[test]
fn test_default_config() {
    let config = Config::default();
    assert!(!config.remote.enabled);
    assert_eq!(config.notification.channel, "wechat");
    assert_eq!(config.gewe_cli.timeout, 0);
}

#[test]
fn test_update_notification() {
    let initial_config = Config::default();
    let mut mgr = ConfigManager::new("/home/user", Some(initial_config), false, Vec::new());

    mgr.update_notification(Some("new_wxid".to_string()), None, None)
        .unwrap();
    let config = mgr.load().unwrap();
    assert_eq!(config.notification.wxid, "new_wxid");

    mgr.update_notification(None, Some("127.0.0.1:8080".to_string()), None)
        .unwrap();
    let config = mgr.load().unwrap();
    assert_eq!(config.notification.listen, "127.0.0.1:8080");
    assert_eq!(config.notification.wxid, "new_wxid");

    mgr.update_notification(
        Some("another_wxid".to_string()),
        Some("0.0.0.0:9999".to_string()),
        None,
    )
    .unwrap();
    let config = mgr.load().unwrap();
    assert_eq!(config.notification.wxid, "another_wxid");
    assert_eq!(config.notification.listen, "0.0.0.0:9999");
}

#[test]
fn test_update_notification_without_config() {
    let mut mgr = ConfigManager::new("/home/user", None, false, Vec::new());
    let err = mgr
        .update_notification(Some("w".to_string()), None, None)
        .unwrap_err();
    assert!(matches!(err, ConfigError::NotFound));
    assert!(matches!(mgr.load(), Err(ConfigError::NotFound)));
}

#[test]
fn test_lock_file_takes_precedence() {
    // Lock present, config flag off: the lock wins.
    let mgr = ConfigManager::new("/home/user", Some(test_config("w", "l", false)), true, Vec::new());
    assert!(mgr.is_remote_enabled());

    // No lock, config flag on: the config flag is the fallback.
    let mgr = ConfigManager::new("/home/user", Some(test_config("w", "l", true)), false, Vec::new());
    assert!(mgr.is_remote_enabled());

    // No lock, no config at all: disabled.
    let mgr = ConfigManager::new("/home/user", None, false, Vec::new());
    assert!(!mgr.is_remote_enabled());
}

#[test]
fn test_enable_disable_remote() {
    let mut mgr = ConfigManager::new("/home/user", None, false, Vec::new());
    mgr.enable_remote();
    assert!(mgr.is_remote_enabled());
    // Enabling without a config record creates one from defaults.
    assert_eq!(mgr.load().unwrap().notification.channel, "wechat");

    mgr.enable_remote();
    assert!(mgr.is_remote_enabled());

    mgr.disable_remote();
    assert!(!mgr.is_remote_enabled());
}

#[test]
fn test_disable_session_round_trip() {
    let mut mgr = ConfigManager::new("/home/user", None, false, Vec::new());
    assert!(!mgr.is_session_disabled("abc"));

    mgr.disable_session("abc");
    assert!(mgr.is_session_disabled("abc"));
    assert!(!mgr.is_session_disabled("other"));

    // Inserting twice keeps the set a set.
    mgr.disable_session("abc");
    assert_eq!(mgr.disabled_sessions().len(), 1);
}

#[test]
fn test_disable_session_blank_ids() {
    let mut mgr = ConfigManager::new("/home/user", None, false, Vec::new());
    mgr.disable_session("");
    mgr.disable_session("   ");
    assert_eq!(mgr.disabled_sessions().len(), 0);
    assert!(!mgr.is_session_disabled(""));
    assert!(!mgr.is_session_disabled("   "));
}

#[test]
fn test_config_paths() {
    let mgr = ConfigManager::new("/home/user", None, false, Vec::new());
    assert_eq!(mgr.config_dir(), "/home/user/.gewe-cc");
    assert_eq!(mgr.config_file(), "/home/user/.gewe-cc/config.toml");
    assert_eq!(
        mgr.session_disabled_file(),
        "/home/user/.gewe-cc/session_disabled.json"
    );
}
