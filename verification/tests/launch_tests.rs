use devcade_onboard::bundle::{extract_bundle, open_bundle};
use devcade_onboard::game::DevcadeGame;
use devcade_onboard::launcher::{
    resolve_executable, CurrentGameSlot, FailReason, LaunchAction, LaunchEvent, LaunchMachine,
    LaunchState,
};
use devcade_onboard::paths;
use std::io::Write;

fn sample_game(id: &str, name: &str, hash: &str) -> DevcadeGame {
    DevcadeGame {
        id: id.to_string(),
        author: "author".to_string(),
        upload_date: "2024-01-01".to_string(),
        name: name.to_string(),
        hash: hash.to_string(),
        description: "a game".to_string(),
        icon_link: "icon".to_string(),
        banner_link: "banner".to_string(),
    }
}

#[test]
fn descriptor_names_the_executable() {
    let files = vec!["Foo.runtimeconfig.json".to_string()];
    let name = "Fallback".to_string();
    assert_eq!(resolve_executable(&files, &name), "Foo");
}

#[test]
fn no_descriptor_falls_back_to_game_name() {
    let files = vec!["readme.txt".to_string(), "data.bin".to_string()];
    let name = "MyGame".to_string();
    assert_eq!(resolve_executable(&files, &name), "MyGame");
}

#[test]
fn first_descriptor_wins() {
    let files = vec![
        "notes.txt".to_string(),
        "First.runtimeconfig.json".to_string(),
        "Second.runtimeconfig.json".to_string(),
    ];
    let name = "Fallback".to_string();
    assert_eq!(resolve_executable(&files, &name), "First");
}

#[test]
fn prefix_stops_at_the_first_dot() {
    let files = vec!["app.runtimeconfig.json".to_string()];
    let name = "Fallback".to_string();
    assert_eq!(resolve_executable(&files, &name), "app");
}

#[test]
fn missing_publish_installs_before_resolving() {
    let mut machine = LaunchMachine::new();
    let first = machine.step(LaunchEvent::Begin { publish_exists: false });
    assert!(matches!(first, LaunchAction::Install));
    assert_eq!(machine.state, LaunchState::Installing);
    let second = machine.step(LaunchEvent::InstallFinished { ok: true });
    assert!(matches!(second, LaunchAction::ReadManifest));
    assert_eq!(machine.state, LaunchState::Installed);
}

#[test]
fn present_publish_skips_the_installer() {
    let mut machine = LaunchMachine::new();
    let first = machine.step(LaunchEvent::Begin { publish_exists: true });
    assert!(matches!(first, LaunchAction::ReadManifest));
    assert_eq!(machine.state, LaunchState::Installed);
}

#[test]
fn failed_install_is_fatal() {
    let mut machine = LaunchMachine::new();
    machine.step(LaunchEvent::Begin { publish_exists: false });
    let action = machine.step(LaunchEvent::InstallFinished { ok: false });
    match action {
        LaunchAction::Fail { reason } => assert_eq!(reason, FailReason::InstallFailed),
        _ => panic!("a failed install must abort the launch"),
    }
    assert_eq!(machine.state, LaunchState::Failed);
}

#[test]
fn missing_executable_is_a_descriptive_failure() {
    let mut machine = LaunchMachine::new();
    machine.step(LaunchEvent::Begin { publish_exists: true });
    machine.step(LaunchEvent::ManifestRead { game: Some(sample_game("g1", "G", "h")) });
    machine.step(LaunchEvent::PublishListed { files: Some(vec!["G".to_string()]) });
    let action = machine.step(LaunchEvent::ExecutableChecked { exists: false });
    match action {
        LaunchAction::Fail { reason } => {
            assert_eq!(reason, FailReason::ExecutableNotFound);
            assert_eq!(reason.message(), "Game executable not found");
        }
        _ => panic!("a missing executable must abort the launch"),
    }
}

#[test]
fn out_of_order_event_fails_the_attempt() {
    let mut machine = LaunchMachine::new();
    let action = machine.step(LaunchEvent::ProcessExited { ok: true });
    match action {
        LaunchAction::Fail { reason } => assert_eq!(reason, FailReason::ProtocolError),
        _ => panic!("an out-of-order event must fail"),
    }
}

#[test]
fn slot_starts_empty_and_replaces_whole_record() {
    let mut slot = CurrentGameSlot::new();
    assert_eq!(slot.get().id, "");
    assert_eq!(slot.get().name, "");
    slot.set(sample_game("g1", "G", "h"));
    assert_eq!(slot.get().id, "g1");
    slot.set(sample_game("g2", "H", "h2"));
    assert_eq!(slot.get().id, "g2");
}

fn build_zip(entries: &[(&str, Option<&[u8]>)]) -> Vec<u8> {
    let options = zip::write::SimpleFileOptions::default()
        .compression_method(zip::CompressionMethod::Stored);
    let mut writer = zip::ZipWriter::new(std::io::Cursor::new(Vec::new()));
    for (name, data) in entries {
        match data {
            Some(bytes) => {
                writer.start_file(*name, options).unwrap();
                writer.write_all(bytes).unwrap();
            }
            None => {
                writer.add_directory(*name, options).unwrap();
            }
        }
    }
    writer.finish().unwrap().into_inner()
}

#[test]
fn end_to_end_install_and_launch() {
    // The catalog returns a game with id "g1" and hash "abc"; the bundle
    // holds a descriptor and the payload under publish/.
    let remote = sample_game("g1", "Game g1", "abc");
    assert!(devcade_onboard::installer::needs_download(&None, &remote));

    let bytes = build_zip(&[
        ("publish/", None),
        ("publish/app.runtimeconfig.json", Some(b"{}")),
        ("publish/App", Some(b"bin")),
    ]);
    let mut archive = open_bundle(bytes).unwrap();
    let batch = extract_bundle(&mut archive);
    assert!(batch.warnings.is_empty());
    let file_names: Vec<String> = batch
        .entries
        .iter()
        .filter(|e| !e.is_dir)
        .map(|e| e.name.trim_start_matches("publish/").to_string())
        .collect();
    let actions =
        devcade_onboard::installer::extraction_actions("/tmp/devcade", "g1", batch.entries);
    assert_eq!(actions.len(), 3);

    // After install the manifest records hash "abc" and the payload exists:
    // a second ensure with the same hash fetches nothing.
    let manifest = Some(remote.clone());
    assert_eq!(manifest.as_ref().unwrap().hash, "abc");
    assert!(!devcade_onboard::installer::needs_download(&manifest, &remote));
    assert_eq!(
        paths::manifest_path("/tmp/devcade", "g1"),
        "/tmp/devcade/g1/game.json"
    );

    // Launch: the machine activates the game, resolves "app" from the
    // descriptor, and spawns in the publish directory.
    let mut machine = LaunchMachine::new();
    let mut slot = CurrentGameSlot::new();
    machine.step(LaunchEvent::Begin { publish_exists: true });
    let activate = machine.step(LaunchEvent::ManifestRead { game: Some(remote) });
    match activate {
        LaunchAction::Activate { game } => {
            assert_eq!(game.id, "g1");
            slot.set(game);
        }
        _ => panic!("a readable manifest must activate the game"),
    }
    assert_eq!(slot.get().id, "g1");
    let check = machine.step(LaunchEvent::PublishListed { files: Some(file_names) });
    let executable = match check {
        LaunchAction::CheckExecutable { executable } => executable,
        _ => panic!("a listed publish directory must resolve an executable"),
    };
    assert_eq!(executable, "app");
    assert_eq!(
        paths::publish_path("/tmp/devcade", "g1"),
        "/tmp/devcade/g1/publish"
    );
    let perm = machine.step(LaunchEvent::ExecutableChecked { exists: true });
    assert!(matches!(perm, LaunchAction::MakeExecutable));
    let spawn = machine.step(LaunchEvent::PermissionsSet { ok: true });
    assert!(matches!(spawn, LaunchAction::Spawn));
    let done = machine.step(LaunchEvent::ProcessExited { ok: true });
    assert!(matches!(done, LaunchAction::CooldownAndFinish));
    assert_eq!(machine.state, LaunchState::Done);
}
