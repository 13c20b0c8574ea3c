use trogue::steam_api::Game;
use trogue::text::contains_case_insensitive;
use trogue::text::contains_sub;
use trogue::text::u64_to_string;
use trogue::tui::KeyInput;
use trogue::tui::filter_games;
use trogue::tui::select_game_step;

fn mock_game(appid: u32, name: &str) -> Game {
    Game {
        appid,
        name: name.to_string(),
        playtime_forever: 0,
        img_icon_url: "".to_string(),
        playtime_windows_forever: 0,
        playtime_mac_forever: 0,
        playtime_linux_forever: 0,
        rtime_last_played: 0,
        playtime_disconnected: 0,
    }
}

#[test]
fn test_u64_to_string() {
    assert_eq!(u64_to_string(0), "0");
    assert_eq!(u64_to_string(7), "7");
    assert_eq!(u64_to_string(10), "10");
    assert_eq!(u64_to_string(1234567890), "1234567890");
    assert_eq!(u64_to_string(u64::MAX), "18446744073709551615");
}

#[test]
fn test_contains_sub() {
    assert!(contains_sub("hello world", "lo wo"));
    assert!(contains_sub("hello", "hello"));
    assert!(contains_sub("hello", ""));
    assert!(contains_sub("", ""));
    assert!(!contains_sub("hello", "world"));
    assert!(!contains_sub("he", "hello"));
}

#[test]
fn test_contains_case_insensitive() {
    assert!(contains_case_insensitive("Beta Quest", "BETA"));
    assert!(contains_case_insensitive("AWESOME GAME", "some g"));
    assert!(!contains_case_insensitive("Alpha", "beta"));
    assert!(contains_case_insensitive("anything", ""));
}

#[test]
fn test_select_game_step() {
    let mut filter = String::new();

    assert!(!select_game_step(&mut filter, KeyInput::Char('a')));
    assert!(!select_game_step(&mut filter, KeyInput::Char('b')));
    assert_eq!(filter, "ab");

    assert!(!select_game_step(&mut filter, KeyInput::Backspace));
    assert_eq!(filter, "a");

    assert!(!select_game_step(&mut filter, KeyInput::Other));
    assert_eq!(filter, "a");

    assert!(select_game_step(&mut filter, KeyInput::Enter));
    assert!(select_game_step(&mut filter, KeyInput::Escape));
    assert_eq!(filter, "a");

    let mut empty = String::new();
    assert!(!select_game_step(&mut empty, KeyInput::Backspace));
    assert_eq!(empty, "");
}

#[test]
fn test_filter_games() {
    let games = vec![
        mock_game(1, "Beta Quest"),
        mock_game(2, "Alpha"),
        mock_game(3, "beta two"),
    ];
    let kept = filter_games(games, "BETA");
    let ids: Vec<u32> = kept.iter().map(|g| g.appid).collect();
    assert_eq!(ids, vec![1, 3]);
}
