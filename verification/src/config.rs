use crate::browser::session::{
    default_args_text, default_timings, texts, BrowserSessionConfig, HeadlessMode,
};
use vstd::prelude::*;

verus! {

/// The name of the file that holds the configuration.
pub const CONFIG_PATH: &'static str = "Config.toml";

/// What the program does besides watching.
#[derive(Clone, Copy, Debug, PartialEq, Eq, Structural)]
pub struct LaunchOptions {
    /// Whether the browser is first opened with a window, to log in.
    pub first_run: bool,
    /// Whether changes are told over the messenger.
    pub telegram_notifications: bool,
    /// Whether a supply that became available is opened in the browser.
    pub open: bool,
    /// Whether changes are printed.
    pub verbose: bool,
}

/// The messenger bot and the chats that it writes to.
#[derive(Clone, Debug)]
pub struct TelegramBot {
    pub token: String,
    pub allow_users: Vec<u64>,
}

impl TelegramBot {
    /// Whether the bot can write to anybody: it has a token and a chat.
    pub fn is_usable(&self) -> (usable: bool)
        ensures
            usable == (self.token@.len() > 0 && self.allow_users@.len() > 0),
    {
        self.token.as_str().unicode_len() > 0 && self.allow_users.len() > 0
    }
}

/// How the supplies are watched.
#[derive(Clone, Copy, Debug, PartialEq, Eq, Structural)]
pub struct TrackingSupplies {
    /// The number of days, from today on, for which costs are fetched.
    pub days: u32,
    /// The pause between two polls, in milliseconds.
    pub interval_millis: u64,
    /// The time after which the identity is derived anew, in seconds.
    pub sync_credentials_interval_secs: u64,
}

/// How the browser is started.
#[derive(Clone, Debug)]
pub struct Browser {
    pub port: u16,
    /// The directory of the browser's profile, relative to the working
    /// directory.
    pub user_data_dir: String,
    pub headless: bool,
}

impl Browser {
    /// The session configuration for this browser: its port, its profile
    /// directory as the caller resolved it against the working directory (none
    /// where the path is no text), headless or not, and everything else as by
    /// default.
    pub fn to_browser_session_config(&self, user_data_dir: Option<String>) -> (config:
        BrowserSessionConfig)
        ensures
            config.port == self.port,
            config.user_data_dir == user_data_dir,
            config.headless == if self.headless {
                HeadlessMode::True
            } else {
                HeadlessMode::False
            },
            config.executable is None,
            texts(config.args@) == default_args_text(),
            !config.sandbox,
            config.extensions@.len() == 0,
            !config.incognito,
            config.launch_timeout == 1500,
            config.request_timeout == 2000,
            config.cache_enabled,
            config.timings == default_timings(),
    {
        let mut config = BrowserSessionConfig::default();
        config.port = self.port;
        config.user_data_dir = user_data_dir;
        config.headless = if self.headless {
            HeadlessMode::True
        } else {
            HeadlessMode::False
        };
        config
    }
}

/// The whole configuration.
#[derive(Clone, Debug)]
pub struct Config {
    pub launch_options: LaunchOptions,
    pub telegram_bot: TelegramBot,
    pub tracking_supplies: TrackingSupplies,
    pub browser: Browser,
}

impl Config {
    /// Whether changes are to be told over the messenger and can be.
    pub fn notifies(&self) -> (b: bool)
        ensures
            b == (self.launch_options.telegram_notifications && self.telegram_bot.token@.len() > 0
                && self.telegram_bot.allow_users@.len() > 0),
    {
        self.launch_options.telegram_notifications && self.telegram_bot.is_usable()
    }
}

} // verus!
