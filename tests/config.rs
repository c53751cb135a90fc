use clipsnap::config::Config;

#[test]
fn test_default_config() {
    let config = Config::default();
    assert_eq!(config.shortcuts.screenshot, "Ctrl+Alt+S");
    assert_eq!(config.shortcuts.history, "Alt+H");
    assert_eq!(config.history.max_entries, 200);
    assert_eq!(config.history.retention_days, 5);
}

#[test]
fn default_config_other_settings() {
    let config = Config::default();
    assert_eq!(config.ui.thumbnail_size, 150);
    assert_eq!(config.storage.database_path, "~/.config/clipboard-capture/history.db");
    assert!(config.history.auto_cleanup);
    assert_eq!(config.capture.quality, 95);
}
