use vstd::prelude::*;

verus! {

/// Application settings.
#[derive(Debug, Clone)]
pub struct Config {
    pub shortcuts: Shortcuts,
    pub capture: CaptureConfig,
    pub history: HistoryConfig,
    pub storage: StorageConfig,
    pub ui: UiConfig,
    pub privacy: PrivacyConfig,
}

/// Key combinations, written like `Ctrl+Alt+S`.
#[derive(Debug, Clone)]
pub struct Shortcuts {
    pub screenshot: String,
    pub history: String,
}

#[derive(Debug, Clone)]
pub struct CaptureConfig {
    pub format: String,
    pub quality: u8,
    pub show_dimensions: bool,
}

/// Retention settings of the content store.
#[derive(Debug, Clone)]
pub struct HistoryConfig {
    pub max_entries: usize,
    pub retention_days: i64,
    pub auto_cleanup: bool,
}

#[derive(Debug, Clone)]
pub struct StorageConfig {
    pub database_path: String,
    pub image_storage: String,
}

#[derive(Debug, Clone)]
pub struct UiConfig {
    pub theme: String,
    pub thumbnail_size: u32,
    pub notification_duration: u32,
}

#[derive(Debug, Clone)]
pub struct PrivacyConfig {
    pub exclude_passwords: bool,
}

impl Default for Config {
    fn default() -> (r: Config)
        ensures
            r.shortcuts.screenshot@ == "Ctrl+Alt+S"@,
            r.shortcuts.history@ == "Alt+H"@,
            r.capture.format@ == "png"@,
            r.capture.quality == 95,
            r.capture.show_dimensions,
            r.history.max_entries == 200,
            r.history.retention_days == 5,
            r.history.auto_cleanup,
            r.storage.database_path@ == "~/.config/clipboard-capture/history.db"@,
            r.storage.image_storage@ == "database"@,
            r.ui.theme@ == "auto"@,
            r.ui.thumbnail_size == 150,
            r.ui.notification_duration == 2,
            r.privacy.exclude_passwords,
    {
        Config {
            shortcuts: Shortcuts {
                screenshot: "Ctrl+Alt+S".to_owned(),
                history: "Alt+H".to_owned(),
            },
            capture: CaptureConfig { format: "png".to_owned(), quality: 95, show_dimensions: true },
            history: HistoryConfig { max_entries: 200, retention_days: 5, auto_cleanup: true },
            storage: StorageConfig {
                database_path: "~/.config/clipboard-capture/history.db".to_owned(),
                image_storage: "database".to_owned(),
            },
            ui: UiConfig { theme: "auto".to_owned(), thumbnail_size: 150, notification_duration: 2 },
            privacy: PrivacyConfig { exclude_passwords: true },
        }
    }
}

} // verus!
