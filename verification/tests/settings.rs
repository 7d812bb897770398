use ks_forward::config::{find_var, flag_is_set, Config};
use ks_forward::error::AppError;

fn vars(pairs: &[(&str, &str)]) -> Vec<(String, String)> {
    pairs.iter().map(|(n, v)| (n.to_string(), v.to_string())).collect()
}

fn complete() -> Vec<(String, String)> {
    vars(&[
        ("API_URL", "https://api.example"),
        ("TOKEN", "t0k"),
        ("YOUTUBE_API_KEY", "yt"),
        ("SUPABASE_API_KEY", "sb"),
        ("KSFORWORD_CHANNEL_ID", "UC1"),
        ("MY_AI_API_URL", "https://ai.example/chat"),
        ("DISCORD_KS_BOT_TOKEN", "https://discord.example/hook"),
    ])
}

fn with(name: &str, value: &str) -> Vec<(String, String)> {
    let mut all = complete();
    all.push((name.to_string(), value.to_string()));
    all
}

fn without(name: &str) -> Vec<(String, String)> {
    complete().into_iter().filter(|(n, _)| n != name).collect()
}

#[test]
fn complete_settings_are_read() {
    assert_eq!(
        Config::from_vars(&complete()),
        Ok(Config {
            api_url: "https://api.example".to_string(),
            token: "t0k".to_string(),
            youtube_api_key: "yt".to_string(),
            supabase_api_key: "sb".to_string(),
            ksforword_channel_id: "UC1".to_string(),
            use_mock_data: false,
            my_ai_api_url: "https://ai.example/chat".to_string(),
            discord_ks_bot_token: "https://discord.example/hook".to_string(),
        })
    );
}

#[test]
fn mock_flag_is_true_in_any_letter_case() {
    assert!(Config::from_vars(&with("USE_MOCK_DATA", "true")).unwrap().use_mock_data);
    assert!(Config::from_vars(&with("USE_MOCK_DATA", "TRUE")).unwrap().use_mock_data);
    assert!(Config::from_vars(&with("USE_MOCK_DATA", "True")).unwrap().use_mock_data);
}

#[test]
fn mock_flag_is_false_for_anything_else() {
    assert!(!Config::from_vars(&with("USE_MOCK_DATA", "false")).unwrap().use_mock_data);
    assert!(!Config::from_vars(&with("USE_MOCK_DATA", "1")).unwrap().use_mock_data);
    assert!(!Config::from_vars(&with("USE_MOCK_DATA", "yes")).unwrap().use_mock_data);
    assert!(!Config::from_vars(&with("USE_MOCK_DATA", " true")).unwrap().use_mock_data);
    assert!(!Config::from_vars(&with("USE_MOCK_DATA", "")).unwrap().use_mock_data);
    assert!(flag_is_set("true"));
    assert!(!flag_is_set("TRUE"));
    assert!(!flag_is_set("truee"));
}

#[test]
fn each_missing_setting_is_named() {
    for name in [
        "API_URL",
        "TOKEN",
        "YOUTUBE_API_KEY",
        "SUPABASE_API_KEY",
        "KSFORWORD_CHANNEL_ID",
        "MY_AI_API_URL",
        "DISCORD_KS_BOT_TOKEN",
    ] {
        assert_eq!(
            Config::from_vars(&without(name)),
            Err(AppError::Config { message: format!("{} is not set", name) })
        );
    }
}

#[test]
fn first_missing_setting_wins() {
    assert_eq!(
        Config::from_vars(&Vec::new()),
        Err(AppError::Config { message: "API_URL is not set".to_string() })
    );
    assert_eq!(
        Config::from_vars(&vars(&[("API_URL", "u"), ("DISCORD_KS_BOT_TOKEN", "d")])),
        Err(AppError::Config { message: "TOKEN is not set".to_string() })
    );
}

#[test]
fn first_variable_of_a_name_wins() {
    let list = vars(&[("A", "1"), ("B", "2"), ("A", "3")]);
    assert_eq!(find_var(&list, "A"), Some("1".to_string()));
    assert_eq!(find_var(&list, "B"), Some("2".to_string()));
    assert_eq!(find_var(&list, "C"), None);
    assert_eq!(find_var(&list, "a"), None);
}
