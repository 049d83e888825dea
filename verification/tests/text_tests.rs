use devcade_onboard::paths::install_root_or_default;
use devcade_onboard::text::{name_is_confined, prefix_before_dot_of, str_ends_with};

#[test]
fn plain_relative_names_are_confined() {
    assert!(name_is_confined("publish/App"));
    assert!(name_is_confined("publish/"));
    assert!(name_is_confined("game.json"));
    assert!(name_is_confined(""));
    assert!(name_is_confined("a..b"));
    assert!(name_is_confined("dots../file"));
    assert!(name_is_confined("./x"));
}

#[test]
fn traversal_and_absolute_names_are_not_confined() {
    assert!(!name_is_confined("../evil.txt"));
    assert!(!name_is_confined("publish/../../evil"));
    assert!(!name_is_confined(".."));
    assert!(!name_is_confined("a/.."));
    assert!(!name_is_confined("/etc/passwd"));
}

#[test]
fn suffix_is_recognised() {
    assert!(str_ends_with("app.runtimeconfig.json", "runtimeconfig.json"));
    assert!(str_ends_with("runtimeconfig.json", "runtimeconfig.json"));
    assert!(str_ends_with("publish/", "/"));
}

#[test]
fn wrong_or_too_long_suffix_is_rejected() {
    assert!(!str_ends_with("app.runtimeconfig.jso", "runtimeconfig.json"));
    assert!(!str_ends_with("json", "runtimeconfig.json"));
    assert!(!str_ends_with("", "/"));
}

#[test]
fn prefix_stops_at_first_dot() {
    assert_eq!(prefix_before_dot_of("Foo.runtimeconfig.json"), "Foo");
    assert_eq!(prefix_before_dot_of("no-dot"), "no-dot");
    assert_eq!(prefix_before_dot_of(".hidden"), "");
    assert_eq!(prefix_before_dot_of(""), "");
}

#[test]
fn configured_install_root_wins() {
    assert_eq!(
        install_root_or_default(Some("/var/lib/devcade".to_string())),
        "/var/lib/devcade"
    );
}

#[test]
fn missing_install_root_falls_back_to_tmp() {
    assert_eq!(install_root_or_default(None), "/tmp/devcade");
}
