use wb_supplies::browser::session::{BrowserTimings, HeadlessMode};
use wb_supplies::config::{Browser, Config, LaunchOptions, TelegramBot, TrackingSupplies, CONFIG_PATH};
use wb_supplies::telebot::bot::{BotBuilder, BASE_URL};
use wb_supplies::telebot::types::InlineKeyboardMarkup;

fn config(token: &str, users: Vec<u64>, notifications: bool) -> Config {
    Config {
        launch_options: LaunchOptions { first_run: false, telegram_notifications: notifications, open: false, verbose: true },
        telegram_bot: TelegramBot { token: token.to_string(), allow_users: users },
        tracking_supplies: TrackingSupplies { days: 14, interval_millis: 5000, sync_credentials_interval_secs: 5400 },
        browser: Browser { port: 8889, user_data_dir: "user_data".to_string(), headless: false },
    }
}

#[test]
fn the_browser_section_gives_a_session_configuration() {
    let browser = Browser { port: 8889, user_data_dir: "user_data".to_string(), headless: true };
    let config = browser.to_browser_session_config(Some("/work/user_data".to_string()));
    assert_eq!(config.port, 8889);
    assert_eq!(config.user_data_dir.as_deref(), Some("/work/user_data"));
    assert_eq!(config.headless, HeadlessMode::True);
    assert_eq!(config.executable, None);
    assert_eq!(config.args.len(), 7);
    assert!(!config.sandbox);
    assert!(config.cache_enabled);
    assert_eq!(config.launch_timeout, 1500);
    assert_eq!(config.request_timeout, 2000);
    assert_eq!(config.timings, BrowserTimings::default());

    let browser = Browser { port: 1, user_data_dir: "x".to_string(), headless: false };
    let config = browser.to_browser_session_config(None);
    assert_eq!(config.headless, HeadlessMode::False);
    assert_eq!(config.user_data_dir, None);
    assert_eq!(config.port, 1);
}

#[test]
fn the_messenger_needs_a_token_and_a_chat() {
    assert!(config("t", vec![1], true).notifies());
    assert!(!config("", vec![1], true).notifies());
    assert!(!config("t", vec![], true).notifies());
    assert!(!config("t", vec![1], false).notifies());
    assert!(TelegramBot { token: "t".to_string(), allow_users: vec![1] }.is_usable());
    assert!(!TelegramBot { token: String::new(), allow_users: vec![1] }.is_usable());
    assert_eq!(CONFIG_PATH, "Config.toml");
}

#[test]
fn a_builder_starts_with_five_seconds_and_html() {
    let builder = BotBuilder::new("token".to_string());
    assert_eq!(builder.token(), "token");
    assert_eq!(builder.timeout_duration(), std::time::Duration::from_secs(5));
    assert!(builder.chat_ids().is_empty());
    assert_eq!(builder.parse_mode_text().as_deref(), Some("HTML"));
}

#[test]
fn a_builder_takes_changes_in_order() {
    let builder = BotBuilder::new("token".to_string())
        .add_chat_id("1".to_string())
        .add_chat_ids(vec!["2".to_string(), "3".to_string()])
        .add_chat_id("4".to_string())
        .timeout(std::time::Duration::from_millis(1500))
        .parse_mode("MarkdownV2".to_string());
    assert_eq!(builder.chat_ids(), &vec!["1", "2", "3", "4"]);
    assert_eq!(builder.timeout_duration(), std::time::Duration::from_millis(1500));
    assert_eq!(builder.parse_mode_text().as_deref(), Some("MarkdownV2"));
    assert_eq!(builder.token(), "token");
}

#[test]
fn messages_go_to_the_address_of_the_bot() {
    let builder = BotBuilder::new("123:abc".to_string());
    assert_eq!(builder.send_message_url(), "https://api.telegram.org/bot123:abc/sendMessage");
    assert_eq!(BASE_URL, "https://api.telegram.org");
}

#[test]
fn a_button_has_a_text_and_an_address() {
    let button = InlineKeyboardMarkup { text: "t".to_string(), url: "u".to_string() };
    let copy = button.clone();
    assert_eq!(copy.text, "t");
    assert_eq!(copy.url, "u");
}
