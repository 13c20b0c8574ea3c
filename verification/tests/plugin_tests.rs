use trogue::app::App;
use trogue::cfg::Cfg;
use trogue::plugins::ArgKind;
use trogue::plugins::CompletionsPlugin;
use trogue::plugins::DashboardPlugin;
use trogue::plugins::ListAchievementsPlugin;
use trogue::plugins::ListGamesPlugin;
use trogue::plugins::Plugin;
use trogue::plugins::ShowProgressPlugin;
use trogue::plugins::get_plugins;
use trogue::plugins::parse_game_id;
use trogue::steam_api::Api;

#[test]
fn list_games_test_command() {
    let plugin = ListGamesPlugin;
    let cmd = plugin.command();
    assert_eq!(cmd.name, "list");
    assert!(!cmd.summary.is_empty());
    assert!(cmd.args.iter().any(|arg| arg.id == "filter"));
    assert!(cmd.args.iter().any(|arg| arg.id == "pattern"));
}

#[test]
fn dashboard_test_command() {
    let plugin = DashboardPlugin;
    let cmd = plugin.command();
    assert_eq!(cmd.name, "dashboard");
    assert!(!cmd.summary.is_empty());
}

#[test]
fn list_achievements_test_command() {
    let plugin = ListAchievementsPlugin;
    let cmd = plugin.command();
    assert_eq!(cmd.name, "achievements");
    assert!(!cmd.summary.is_empty());
    assert!(cmd.args.iter().any(|arg| arg.id == "game_id"));
    assert!(cmd.args.iter().any(|arg| arg.id == "global"));
    assert!(cmd.args.iter().any(|arg| arg.id == "remaining"));
}

#[test]
fn show_progress_test_command() {
    let plugin = ShowProgressPlugin;
    let cmd = plugin.command();
    assert_eq!(cmd.name, "progress");
    assert!(!cmd.summary.is_empty());
    assert!(cmd.args.iter().any(|arg| arg.id == "game_id"));
}

#[test]
fn completions_test_command() {
    let plugin = CompletionsPlugin;
    let cmd = plugin.command();
    assert_eq!(cmd.name, "completions");
    assert!(!cmd.summary.is_empty());
    assert!(cmd.args.iter().any(|arg| arg.id == "shell"));
}

#[test]
fn test_get_plugins() {
    let plugins = get_plugins();

    assert_eq!(plugins.len(), 4);

    let mut expected_names = vec!["list", "dashboard", "achievements", "progress"];
    expected_names.sort();

    let mut actual_names: Vec<String> = plugins.iter().map(|p| p.command().name).collect();
    actual_names.sort();

    assert_eq!(actual_names, expected_names);
}

#[test]
fn test_descriptor_details() {
    let cmd = ListGamesPlugin.command();
    assert_eq!(cmd.args[0].kind, ArgKind::Valued);
    assert!(!cmd.args[0].required);
    assert_eq!(cmd.args[0].depends_on, None);
    assert_eq!(cmd.args[1].id, "pattern");
    assert_eq!(cmd.args[1].depends_on, Some("filter".to_string()));

    let cmd = ShowProgressPlugin.command();
    assert_eq!(cmd.args[0].kind, ArgKind::Positional);
    assert!(cmd.args[0].required);

    let cmd = ListAchievementsPlugin.command();
    assert_eq!(cmd.args[1].kind, ArgKind::Flag);
    assert_eq!(cmd.args[2].kind, ArgKind::Flag);
}

#[test]
fn test_parse_game_id_valid() {
    assert_eq!(parse_game_id("123"), Some(123));
    assert_eq!(parse_game_id("0"), Some(0));
    assert_eq!(parse_game_id("+42"), Some(42));
    assert_eq!(parse_game_id("007"), Some(7));
    assert_eq!(parse_game_id("4294967295"), Some(u32::MAX));
}

#[test]
fn test_parse_game_id_invalid() {
    assert_eq!(parse_game_id("invalid"), None);
    assert_eq!(parse_game_id(""), None);
    assert_eq!(parse_game_id("+"), None);
    assert_eq!(parse_game_id("12a"), None);
    assert_eq!(parse_game_id(" 1"), None);
    assert_eq!(parse_game_id("-1"), None);
    assert_eq!(parse_game_id("4294967296"), None);
    assert_eq!(parse_game_id("999999999999999999999"), None);
}

#[test]
fn test_cfg_load_success() {
    let mut cfg = Cfg::new();
    let r = cfg.load(Some("test_key".to_string()), Some("test_id".to_string()));
    assert!(r.is_ok());
    assert_eq!(cfg.api_key(), "test_key");
    assert_eq!(cfg.steam_id(), "test_id");
}

#[test]
fn test_cfg_load_missing_api_key() {
    let mut cfg = Cfg::new();
    let r = cfg.load(None, Some("test_id".to_string()));
    assert_eq!(r, Err("Missing TROGUE_STEAM_API_KEY environment variable."));
    assert_eq!(cfg.api_key(), "");
    assert_eq!(cfg.steam_id(), "");
}

#[test]
fn test_cfg_load_missing_steam_id() {
    let mut cfg = Cfg::new();
    let r = cfg.load(Some("test_key".to_string()), None);
    assert_eq!(r, Err("Missing TROGUE_STEAM_ID environment variable."));
    assert_eq!(cfg.api_key(), "test_key");
    assert_eq!(cfg.steam_id(), "");
}

#[test]
fn test_api_urls() {
    let api = Api::new(
        "test_key".to_string(),
        "test_id".to_string(),
        "http://api.steampowered.com".to_string(),
    );
    assert_eq!(
        api.get_games_list_url(),
        "http://api.steampowered.com/IPlayerService/GetOwnedGames/v0001/?key=test_key&steamid=test_id&format=json&include_appinfo=1"
    );
    assert_eq!(
        api.get_game_achievements_url(440),
        "http://api.steampowered.com/ISteamUserStats/GetPlayerAchievements/v0001/?appid=440&key=test_key&steamid=test_id&l=en"
    );
    assert_eq!(
        api.get_global_achievements_url(440),
        "http://api.steampowered.com/ISteamUserStats/GetGlobalAchievementPercentagesForApp/v0002/?gameid=440&format=json&l=en"
    );
}

#[test]
fn test_app_new_uses_base_url() {
    let mut cfg = Cfg::new();
    cfg.load(Some("k".to_string()), Some("s".to_string())).unwrap();
    let app = App::new(cfg);
    let url = app.api().get_games_list_url();
    assert!(url.starts_with("http://api.steampowered.com/"));
    assert!(url.contains("key=k"));
    assert!(url.contains("steamid=s"));
}
