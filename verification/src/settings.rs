//! The user's preferences.

use vstd::prelude::*;
use crate::text::opt_view;

verus! {

/// The preferences of the application.
#[derive(Debug, PartialEq, Eq)]
pub struct AppSettings {
    pub launch_at_login: bool,
    pub minimize_to_tray_on_close: bool,
    pub keep_alive_interval: u32,
    pub default_ssh_key: Option<String>,
    pub strict_host_key_checking: bool,
    pub connection_timeout: u32,
    pub auto_reconnect: bool,
    pub theme: String,
    pub language: String,
}

/// The mathematical value of an [`AppSettings`].
pub struct AppSettingsView {
    pub launch_at_login: bool,
    pub minimize_to_tray_on_close: bool,
    pub keep_alive_interval: u32,
    pub default_ssh_key: Option<Seq<char>>,
    pub strict_host_key_checking: bool,
    pub connection_timeout: u32,
    pub auto_reconnect: bool,
    pub theme: Seq<char>,
    pub language: Seq<char>,
}

impl View for AppSettings {
    type V = AppSettingsView;

    open spec fn view(&self) -> AppSettingsView {
        AppSettingsView {
            launch_at_login: self.launch_at_login,
            minimize_to_tray_on_close: self.minimize_to_tray_on_close,
            keep_alive_interval: self.keep_alive_interval,
            default_ssh_key: opt_view(self.default_ssh_key),
            strict_host_key_checking: self.strict_host_key_checking,
            connection_timeout: self.connection_timeout,
            auto_reconnect: self.auto_reconnect,
            theme: self.theme@,
            language: self.language@,
        }
    }
}

impl AppSettingsView {
    /// The preferences of a fresh installation.
    pub open spec fn initial() -> AppSettingsView {
        AppSettingsView {
            launch_at_login: false,
            minimize_to_tray_on_close: true,
            keep_alive_interval: 60,
            default_ssh_key: None,
            strict_host_key_checking: false,
            connection_timeout: 10,
            auto_reconnect: true,
            theme: "system"@,
            language: "en"@,
        }
    }
}

impl Clone for AppSettings {
    fn clone(&self) -> (r: Self)
        ensures
            r == *self,
    {
        AppSettings {
            launch_at_login: self.launch_at_login,
            minimize_to_tray_on_close: self.minimize_to_tray_on_close,
            keep_alive_interval: self.keep_alive_interval,
            default_ssh_key: self.default_ssh_key.clone(),
            strict_host_key_checking: self.strict_host_key_checking,
            connection_timeout: self.connection_timeout,
            auto_reconnect: self.auto_reconnect,
            theme: self.theme.clone(),
            language: self.language.clone(),
        }
    }
}

impl Default for AppSettings {
    fn default() -> (r: Self)
        ensures
            r@ == AppSettingsView::initial(),
    {
        AppSettings {
            launch_at_login: false,
            minimize_to_tray_on_close: true,
            keep_alive_interval: 60,
            default_ssh_key: None,
            strict_host_key_checking: false,
            connection_timeout: 10,
            auto_reconnect: true,
            theme: String::from_str("system"),
            language: String::from_str("en"),
        }
    }
}

/// Holds the preferences in effect.
pub struct SettingsManager {
    settings: AppSettings,
}

impl View for SettingsManager {
    type V = AppSettingsView;

    closed spec fn view(&self) -> AppSettingsView {
        self.settings@
    }
}

impl SettingsManager {
    /// A manager that starts from what the store held, or from the
    /// preferences of a fresh installation when it held nothing.
    pub fn new(stored: Option<AppSettings>) -> (m: SettingsManager)
        ensures
            m@ == match stored {
                Some(s) => s@,
                None => AppSettingsView::initial(),
            },
    {
        SettingsManager {
            settings: match stored {
                Some(s) => s,
                None => AppSettings::default(),
            },
        }
    }

    /// The preferences in effect.
    pub fn get_settings(&self) -> (s: AppSettings)
        ensures
            s@ == self@,
    {
        self.settings.clone()
    }

    /// Puts `new_settings` in effect.
    pub fn save_settings(&mut self, new_settings: AppSettings)
        ensures
            final(self)@ == new_settings@,
    {
        self.settings = new_settings;
    }
}

} // verus!
