use devcade_onboard::catalog::{games_from_scan, hydrated_games};
use devcade_onboard::game::DevcadeGame;

fn sample_game(id: &str, hash: &str) -> DevcadeGame {
    DevcadeGame {
        id: id.to_string(),
        author: "author".to_string(),
        upload_date: "2024-01-01".to_string(),
        name: format!("Game {id}"),
        hash: hash.to_string(),
        description: "a game".to_string(),
        icon_link: "icon".to_string(),
        banner_link: "banner".to_string(),
    }
}

#[test]
fn scan_keeps_valid_and_skips_invalid() {
    let parsed = vec![
        Some(sample_game("a", "h1")),
        None,
        Some(sample_game("b", "h2")),
        None,
        None,
    ];
    let games = games_from_scan(parsed);
    assert_eq!(games.len(), 2);
    assert_eq!(games[0].id, "a");
    assert_eq!(games[1].id, "b");
}

#[test]
fn scan_of_empty_root_is_empty() {
    let games = games_from_scan(Vec::new());
    assert!(games.is_empty());
}

#[test]
fn scan_with_only_invalid_entries_is_empty_not_an_error() {
    let games = games_from_scan(vec![None, None, None]);
    assert!(games.is_empty());
}

#[test]
fn one_failed_hydration_drops_exactly_one_game() {
    let results = vec![
        Ok(sample_game("a", "h1")),
        Err("connection reset".to_string()),
        Ok(sample_game("c", "h3")),
    ];
    let (games, warnings) = hydrated_games(results);
    assert_eq!(games.len(), 2);
    assert_eq!(warnings.len(), 1);
    assert_eq!(games[0].id, "a");
    assert_eq!(games[1].id, "c");
    assert_eq!(warnings[0], "connection reset");
}

#[test]
fn all_hydrations_succeeding_keeps_everything() {
    let results = vec![Ok(sample_game("a", "h1")), Ok(sample_game("b", "h2"))];
    let (games, warnings) = hydrated_games(results);
    assert_eq!(games.len(), 2);
    assert!(warnings.is_empty());
}

#[test]
fn all_hydrations_failing_still_succeeds_with_nothing() {
    let results: Vec<Result<DevcadeGame, String>> =
        vec![Err("e1".to_string()), Err("e2".to_string())];
    let (games, warnings) = hydrated_games(results);
    assert!(games.is_empty());
    assert_eq!(warnings.len(), 2);
}
