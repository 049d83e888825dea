use devcade_onboard::paths;
use devcade_onboard::route;

#[test]
fn game_list_route() {
    assert_eq!(route::game_list(), "games/");
}

#[test]
fn game_route() {
    assert_eq!(route::game("g1"), "games/g1");
}

#[test]
fn game_icon_route() {
    assert_eq!(route::game_icon("g1"), "games/g1/icon");
}

#[test]
fn game_banner_route() {
    assert_eq!(route::game_banner("g1"), "games/g1/banner");
}

#[test]
fn game_download_route() {
    assert_eq!(route::game_download("g1"), "games/g1/game");
}

#[test]
fn tag_list_route() {
    assert_eq!(route::tag_list(), "tags/");
}

#[test]
fn tag_route() {
    assert_eq!(route::tag("multiplayer"), "tags/multiplayer");
}

#[test]
fn tag_games_route() {
    assert_eq!(route::tag_games("multiplayer"), "tags/multiplayer/games");
}

#[test]
fn user_route() {
    assert_eq!(route::user("u42"), "users/u42");
}

#[test]
fn join_url_appends_route() {
    assert_eq!(
        route::join_url("https://example.test/api", &route::game("g1")),
        "https://example.test/api/games/g1"
    );
}

#[test]
fn manifest_path_layout() {
    assert_eq!(paths::manifest_path("/tmp/devcade", "g1"), "/tmp/devcade/g1/game.json");
}

#[test]
fn publish_path_layout() {
    assert_eq!(paths::publish_path("/tmp/devcade", "g1"), "/tmp/devcade/g1/publish");
}

#[test]
fn icon_and_banner_path_layout() {
    assert_eq!(paths::icon_path("/tmp/devcade", "g1"), "/tmp/devcade/g1/icon.png");
    assert_eq!(paths::banner_path("/tmp/devcade", "g1"), "/tmp/devcade/g1/banner.png");
}

#[test]
fn entry_path_layout() {
    assert_eq!(
        paths::entry_path("/tmp/devcade", "g1", "publish/App"),
        "/tmp/devcade/g1/publish/App"
    );
}

#[test]
fn executable_path_layout() {
    assert_eq!(
        paths::executable_path("/tmp/devcade", "g1", "App"),
        "/tmp/devcade/g1/publish/App"
    );
}
