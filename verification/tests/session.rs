use ownpager::session::{
    derive_cli_session_key, derive_session_key, derive_telegram_session_key,
    derive_web_session_key,
};
use ownpager::types::SourceType;

#[test]
fn derives_cli_session_key_from_profile_and_cwd() {
    let key = derive_cli_session_key("default", Some("/tmp/my project"));
    assert_eq!(key, "cli:default:tmp/my_project");
}

#[test]
fn derives_telegram_session_key_from_chat_and_user() {
    let key = derive_telegram_session_key("12345", Some("777"));
    assert_eq!(key, "telegram:12345:777");
}

#[test]
fn derives_web_session_key_from_profile_and_browser_session() {
    let key = derive_web_session_key("default user", Some("browser:1"));
    assert_eq!(key, "web:default_user:browser_1");
}

#[test]
fn session_keys_fall_back_when_parts_are_missing() {
    assert_eq!(derive_cli_session_key("default", None), "cli:default:unknown_cwd");
    assert_eq!(derive_cli_session_key("default", Some("/")), "cli:default:unknown_cwd");
    assert_eq!(derive_telegram_session_key("9", None), "telegram:9:unknown_user");
    assert_eq!(derive_telegram_session_key("9", Some("  ")), "telegram:9:unknown_user");
    assert_eq!(derive_web_session_key("p", None), "web:p:browser");
}

#[test]
fn session_keys_of_channels_differ() {
    let cli = derive_session_key(SourceType::Cli, Some("x"), None, None, Some("/a"));
    let telegram = derive_session_key(SourceType::Telegram, None, Some("x"), Some("x"), None);
    let web = derive_session_key(SourceType::Web, Some("x"), None, Some("x"), None);
    assert_eq!(cli, "cli:x:a");
    assert_eq!(telegram, "telegram:x:x");
    assert_eq!(web, "web:x:x");
    assert!(cli.starts_with("cli:"));
    assert!(telegram.starts_with("telegram:"));
    assert!(web.starts_with("web:"));
    assert_ne!(cli, telegram);
    assert_ne!(cli, web);
    assert_ne!(telegram, web);
}

#[test]
fn session_keys_have_three_colon_free_parts() {
    let keys = [
        derive_cli_session_key("a:b c", Some("/x:y/z w")),
        derive_telegram_session_key("1:2", Some("3 : 4")),
        derive_web_session_key("p:q", Some("s:t")),
    ];
    assert_eq!(keys[0], "cli:a_b_c:x_y/z_w");
    assert_eq!(keys[1], "telegram:1_2:3___4");
    assert_eq!(keys[2], "web:p_q:s_t");
    for key in keys.iter() {
        assert_eq!(key.split(':').count(), 3);
    }
}
