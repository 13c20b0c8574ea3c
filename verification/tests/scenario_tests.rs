use trogue::plugins::DashboardPlugin;
use trogue::plugins::ListAchievementsPlugin;
use trogue::plugins::ListGamesPlugin;
use trogue::plugins::ShowProgressPlugin;
use trogue::steam_api::Achievement;
use trogue::steam_api::Game;
use trogue::steam_api::GlobalRate;

fn mock_game(appid: u32, name: &str, rtime_last_played: u64) -> Game {
    Game {
        appid,
        name: name.to_string(),
        playtime_forever: 0,
        img_icon_url: "".to_string(),
        playtime_windows_forever: 0,
        playtime_mac_forever: 0,
        playtime_linux_forever: 0,
        rtime_last_played,
        playtime_disconnected: 0,
    }
}

fn mock_achievement(apiname: &str, name: &str, achieved: u8) -> Achievement {
    Achievement {
        apiname: apiname.to_string(),
        name: name.to_string(),
        description: "Test Description".to_string(),
        achieved,
        unlocktime: 0,
    }
}

fn expected_bar(filled: usize, width: usize, rest: &str) -> String {
    let mut s = String::from("[");
    s.push_str(&"\u{2588}".repeat(filled));
    s.push_str(&" ".repeat(width - filled));
    s.push_str(rest);
    s
}

#[test]
fn list_games_filter_scenario() {
    let games = vec![mock_game(1, "Alpha", 0), mock_game(2, "Beta Quest", 0)];
    let mut out: Vec<String> = Vec::new();
    let mut err: Vec<String> = Vec::new();

    ListGamesPlugin.execute(Ok(games), Some("beta".to_string()), None, &mut out, &mut err);

    assert_eq!(out, vec!["Displaying games filtered by: beta", "[2] Beta Quest"]);
    assert!(err.is_empty());
}

#[test]
fn list_games_no_filter() {
    let games = vec![mock_game(1, "Game 1", 0), mock_game(2, "Game 2", 0)];
    let mut out: Vec<String> = Vec::new();
    let mut err: Vec<String> = Vec::new();

    ListGamesPlugin.execute(Ok(games), None, None, &mut out, &mut err);

    assert_eq!(out, vec!["Displaying all games:", "[1] Game 1", "[2] Game 2"]);
    assert!(err.is_empty());
}

#[test]
fn list_games_filter_and_pattern() {
    let games = vec![mock_game(1, "Awesome Game", 0), mock_game(2, "Another Game", 0)];
    let mut out: Vec<String> = Vec::new();
    let mut err: Vec<String> = Vec::new();

    ListGamesPlugin.execute(
        Ok(games),
        Some("Awesome".to_string()),
        Some("i - n".to_string()),
        &mut out,
        &mut err,
    );

    assert_eq!(out, vec!["Displaying games filtered by: Awesome", "1 - Awesome Game"]);
}

#[test]
fn list_games_fetch_failure() {
    let mut out: Vec<String> = Vec::new();
    let mut err: Vec<String> = Vec::new();

    ListGamesPlugin.execute(
        Err("500 Internal Server Error".to_string()),
        None,
        None,
        &mut out,
        &mut err,
    );

    assert_eq!(err, vec!["Error while trying to get Steam data: 500 Internal Server Error"]);
    assert_eq!(out, vec!["Displaying all games:"]);
}

#[test]
fn achievements_remaining_scenario() {
    let achievements = vec![
        mock_achievement("a1", "First Achievement", 1),
        mock_achievement("a2", "Second Achievement", 0),
    ];
    let mut out: Vec<String> = Vec::new();
    let mut err: Vec<String> = Vec::new();

    ListAchievementsPlugin.execute(
        "123",
        Some(Ok(("Test Game".to_string(), achievements))),
        None,
        true,
        &mut out,
        &mut err,
    );

    assert!(out.iter().any(|l| l.contains("Second Achievement")));
    assert!(!out.iter().any(|l| l.contains("First Achievement")));
    assert_eq!(out, vec!["Second Achievement"]);
}

#[test]
fn achievements_success_lines() {
    let achievements = vec![
        mock_achievement("a1", "First Achievement", 1),
        mock_achievement("a2", "Second Achievement", 0),
    ];
    let mut out: Vec<String> = Vec::new();
    let mut err: Vec<String> = Vec::new();

    ListAchievementsPlugin.execute(
        "123",
        Some(Ok(("Test Game".to_string(), achievements))),
        None,
        false,
        &mut out,
        &mut err,
    );

    assert_eq!(
        out,
        vec!["First Achievement - Y (1970-01-01 00:00:00)", "Second Achievement"]
    );
    assert!(err.is_empty());
}

#[test]
fn achievements_invalid_game_id() {
    let mut out: Vec<String> = Vec::new();
    let mut err: Vec<String> = Vec::new();

    ListAchievementsPlugin.execute("invalid", None, None, false, &mut out, &mut err);

    assert_eq!(err, vec!["Invalid game id: invalid"]);
    assert!(out.is_empty());
}

#[test]
fn achievements_fetch_failure() {
    let mut out: Vec<String> = Vec::new();
    let mut err: Vec<String> = Vec::new();

    ListAchievementsPlugin.execute(
        "123",
        Some(Err("500 err".to_string())),
        None,
        false,
        &mut out,
        &mut err,
    );

    assert_eq!(err, vec!["Error while trying to get achievements: 500 err"]);
    assert!(out.is_empty());
}

#[test]
fn achievements_with_global_rates() {
    let achievements = vec![
        mock_achievement("ach1", "First Achievement", 0),
        mock_achievement("ach2", "Second Achievement", 0),
    ];
    let rates = vec![
        GlobalRate { name: "ach1".to_string(), percent_text: format!("{}", 50.5f32) },
        GlobalRate { name: "ach2".to_string(), percent_text: format!("{}", 10.2f32) },
    ];
    let mut out: Vec<String> = Vec::new();
    let mut err: Vec<String> = Vec::new();

    ListAchievementsPlugin.execute(
        "123",
        Some(Ok(("Test Game".to_string(), achievements))),
        Some(Ok(rates)),
        false,
        &mut out,
        &mut err,
    );

    assert_eq!(out, vec!["First Achievement 50.5%", "Second Achievement 10.2%"]);
    assert!(err.is_empty());
}

#[test]
fn achievements_global_rate_missing_key_defaults_to_zero() {
    let achievements = vec![mock_achievement("ach2", "Second Achievement", 0)];
    let rates = vec![GlobalRate { name: "ach1".to_string(), percent_text: "50.5".to_string() }];
    let mut out: Vec<String> = Vec::new();
    let mut err: Vec<String> = Vec::new();

    ListAchievementsPlugin.execute(
        "123",
        Some(Ok(("Test Game".to_string(), achievements))),
        Some(Ok(rates)),
        false,
        &mut out,
        &mut err,
    );

    assert_eq!(out, vec!["Second Achievement 0%"]);
}

#[test]
fn achievements_global_rate_last_entry_wins() {
    let achievements = vec![mock_achievement("ach1", "First Achievement", 0)];
    let rates = vec![
        GlobalRate { name: "ach1".to_string(), percent_text: "1".to_string() },
        GlobalRate { name: "ach1".to_string(), percent_text: "2".to_string() },
    ];
    let mut out: Vec<String> = Vec::new();
    let mut err: Vec<String> = Vec::new();

    ListAchievementsPlugin.execute(
        "123",
        Some(Ok(("Test Game".to_string(), achievements))),
        Some(Ok(rates)),
        false,
        &mut out,
        &mut err,
    );

    assert_eq!(out, vec!["First Achievement 2%"]);
}

#[test]
fn achievements_global_fetch_failure() {
    let achievements = vec![mock_achievement("ach1", "First Achievement", 0)];
    let mut out: Vec<String> = Vec::new();
    let mut err: Vec<String> = Vec::new();

    ListAchievementsPlugin.execute(
        "123",
        Some(Ok(("Test Game".to_string(), achievements))),
        Some(Err("boom".to_string())),
        false,
        &mut out,
        &mut err,
    );

    assert_eq!(err, vec!["Error while trying to get global achievements: boom"]);
    assert_eq!(out, vec!["First Achievement 0%"]);
}

#[test]
fn progress_bar_scenario() {
    let achievements = vec![
        mock_achievement("a1", "First Achievement", 1),
        mock_achievement("a2", "Second Achievement", 0),
    ];
    let mut out: Vec<String> = Vec::new();
    let mut err: Vec<String> = Vec::new();

    ShowProgressPlugin.execute(
        "123",
        Some(Ok(("Test Game".to_string(), achievements))),
        80,
        &mut out,
        &mut err,
    );

    assert_eq!(out.len(), 2);
    assert_eq!(out[0], "Test Game");
    assert_eq!(out[1], expected_bar(20, 40, "] 50.0% (1/2)"));
    assert!(err.is_empty());
}

#[test]
fn progress_zero_achievements_scenario() {
    let mut out: Vec<String> = Vec::new();
    let mut err: Vec<String> = Vec::new();

    ShowProgressPlugin.execute(
        "123",
        Some(Ok(("Test Game".to_string(), Vec::new()))),
        80,
        &mut out,
        &mut err,
    );

    assert_eq!(out, vec!["Test Game", "No achievements found for this game"]);
    assert!(err.is_empty());
}

#[test]
fn progress_fetch_failure() {
    let mut out: Vec<String> = Vec::new();
    let mut err: Vec<String> = Vec::new();

    ShowProgressPlugin.execute("123", Some(Err("500".to_string())), 80, &mut out, &mut err);

    assert_eq!(err, vec!["Error while trying to get achievements: 500"]);
    assert_eq!(out, vec!["", "No achievements found for this game"]);
}

#[test]
fn progress_invalid_game_id() {
    let mut out: Vec<String> = Vec::new();
    let mut err: Vec<String> = Vec::new();

    ShowProgressPlugin.execute("invalid", None, 80, &mut out, &mut err);

    assert_eq!(err, vec!["Invalid game id: invalid"]);
    assert!(out.is_empty());
}

#[test]
fn progress_rounding_one_third() {
    let achievements = vec![
        mock_achievement("a1", "A", 1),
        mock_achievement("a2", "B", 0),
        mock_achievement("a3", "C", 0),
    ];
    let mut out: Vec<String> = Vec::new();
    let mut err: Vec<String> = Vec::new();

    ShowProgressPlugin.execute(
        "123",
        Some(Ok(("G".to_string(), achievements))),
        80,
        &mut out,
        &mut err,
    );

    // 1/3 of 40 cells is 13.33, rounding to 13; the percentage is 33.3.
    assert_eq!(out[1], expected_bar(13, 40, "] 33.3% (1/3)"));
}

#[test]
fn progress_rounding_half_up() {
    let achievements = vec![
        mock_achievement("a1", "A", 1),
        mock_achievement("a2", "B", 0),
    ];
    let mut out: Vec<String> = Vec::new();
    let mut err: Vec<String> = Vec::new();

    // A 10-wide terminal gives a 5-cell bar; half of it is 2.5 cells,
    // which rounds up to 3.
    ShowProgressPlugin.execute(
        "123",
        Some(Ok(("G".to_string(), achievements))),
        10,
        &mut out,
        &mut err,
    );

    assert_eq!(out[1], expected_bar(3, 5, "] 50.0% (1/2)"));
}

#[test]
fn dashboard_success_scenario() {
    let games = vec![mock_game(100, "Game 1", 100), mock_game(200, "Game 2", 200)];
    let mut out: Vec<String> = Vec::new();
    let mut err: Vec<String> = Vec::new();

    let plugin = DashboardPlugin;
    let recent = plugin.prepare(Ok(games), &mut err);
    assert_eq!(recent.len(), 2);
    assert_eq!(recent[0].appid, 200);
    assert_eq!(recent[1].appid, 100);

    plugin.banner(80, &mut out);
    assert_eq!(out[0], "=".repeat(40));
    assert_eq!(out[1], format!("    {}    ", "Recently Played Games Dashboard"));
    assert_eq!(out[2], "=".repeat(40));

    plugin.game_section(
        Ok((
            "Game 2".to_string(),
            vec![mock_achievement("a", "A", 1), mock_achievement("b", "B", 1)],
        )),
        80,
        &mut out,
        &mut err,
    );
    plugin.game_section(
        Ok((
            "Game 1".to_string(),
            vec![mock_achievement("a", "A", 1), mock_achievement("b", "B", 0)],
        )),
        80,
        &mut out,
        &mut err,
    );

    let all = out.join("\n");
    assert!(all.contains("Recently Played Games Dashboard"));
    assert!(all.contains("100.0% (2/2)"));
    assert!(all.contains("50.0% (1/2)"));
    assert!(err.is_empty());
}

#[test]
fn dashboard_fetch_failure() {
    let mut err: Vec<String> = Vec::new();

    let recent = DashboardPlugin.prepare(Err("500".to_string()), &mut err);

    assert!(recent.is_empty());
    assert_eq!(err, vec!["Error while trying to get Steam data: 500"]);
}

#[test]
fn dashboard_no_games() {
    let mut out: Vec<String> = Vec::new();
    let mut err: Vec<String> = Vec::new();

    let plugin = DashboardPlugin;
    let recent = plugin.prepare(Ok(Vec::new()), &mut err);
    plugin.banner(80, &mut out);

    assert!(recent.is_empty());
    assert_eq!(out.len(), 3);
    assert!(out[1].contains("Recently Played Games Dashboard"));
}

#[test]
fn dashboard_game_without_achievements() {
    let mut out: Vec<String> = Vec::new();
    let mut err: Vec<String> = Vec::new();

    DashboardPlugin.game_section(
        Ok(("Game 1".to_string(), Vec::new())),
        80,
        &mut out,
        &mut err,
    );

    assert_eq!(out, vec!["Game 1", "No achievements found for this game"]);
}

#[test]
fn dashboard_game_fetch_failure() {
    let mut out: Vec<String> = Vec::new();
    let mut err: Vec<String> = Vec::new();

    DashboardPlugin.game_section(Err("500".to_string()), 80, &mut out, &mut err);

    assert_eq!(err, vec!["Error while trying to get achievements: 500"]);
    assert_eq!(out, vec!["", "No achievements found for this game"]);
}

#[test]
fn dashboard_sort_is_stable_and_capped() {
    let mut games = vec![
        mock_game(1, "Tied A", 5),
        mock_game(2, "Tied B", 5),
        mock_game(3, "Newest", 9),
    ];
    let mut err: Vec<String> = Vec::new();
    let recent = DashboardPlugin.prepare(Ok(games), &mut err);
    let ids: Vec<u32> = recent.iter().map(|g| g.appid).collect();
    assert_eq!(ids, vec![3, 1, 2]);

    games = (1..=12).map(|i| mock_game(i, "G", i as u64)).collect();
    let recent = DashboardPlugin.prepare(Ok(games), &mut err);
    assert_eq!(recent.len(), 10);
    assert_eq!(recent[0].appid, 12);
    assert_eq!(recent[9].appid, 3);
}
