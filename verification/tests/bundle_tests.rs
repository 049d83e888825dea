use devcade_onboard::bundle::{extract_bundle, open_bundle};
use devcade_onboard::game::DevcadeGame;
use devcade_onboard::installer::{
    extraction_actions, needs_download, should_fetch_asset, FsAction,
};
use std::io::Write;

fn sample_game(id: &str, hash: &str) -> DevcadeGame {
    DevcadeGame {
        id: id.to_string(),
        author: "author".to_string(),
        upload_date: "2024-01-01".to_string(),
        name: format!("Game {id}"),
        hash: hash.to_string(),
        description: "a game".to_string(),
        icon_link: "icon".to_string(),
        banner_link: "banner".to_string(),
    }
}

fn build_zip(entries: &[(&str, Option<&[u8]>)]) -> Vec<u8> {
    let options = zip::write::SimpleFileOptions::default()
        .compression_method(zip::CompressionMethod::Stored);
    let mut writer = zip::ZipWriter::new(std::io::Cursor::new(Vec::new()));
    for (name, data) in entries {
        match data {
            Some(bytes) => {
                writer.start_file(*name, options).unwrap();
                writer.write_all(bytes).unwrap();
            }
            None => {
                writer.add_directory(*name, options).unwrap();
            }
        }
    }
    writer.finish().unwrap().into_inner()
}

#[test]
fn extraction_reads_names_flags_and_bytes() {
    let bytes = build_zip(&[
        ("publish/", None),
        ("publish/app.runtimeconfig.json", Some(b"{}")),
        ("publish/App", Some(b"binary-payload")),
    ]);
    let mut archive = open_bundle(bytes).unwrap();
    let batch = extract_bundle(&mut archive);
    assert!(batch.warnings.is_empty());
    assert_eq!(batch.entries.len(), 3);
    assert_eq!(batch.entries[0].name, "publish/");
    assert!(batch.entries[0].is_dir);
    assert_eq!(batch.entries[1].name, "publish/app.runtimeconfig.json");
    assert!(!batch.entries[1].is_dir);
    assert_eq!(batch.entries[1].data, b"{}");
    assert_eq!(batch.entries[2].name, "publish/App");
    assert_eq!(batch.entries[2].data, b"binary-payload");
}

#[test]
fn opening_garbage_fails() {
    assert!(open_bundle(b"this is not an archive".to_vec()).is_err());
}

#[test]
fn traversal_entry_is_diverted_to_a_warning() {
    let bytes = build_zip(&[
        ("../evil.txt", Some(b"payload")),
        ("publish/App", Some(b"bin")),
    ]);
    let mut archive = open_bundle(bytes).unwrap();
    let batch = extract_bundle(&mut archive);
    assert_eq!(batch.entries.len(), 1);
    assert_eq!(batch.entries[0].name, "publish/App");
    assert_eq!(batch.warnings.len(), 1);
    assert!(batch.warnings[0].contains("escapes the install directory"));
}

#[test]
fn extraction_actions_follow_the_layout() {
    let bytes = build_zip(&[
        ("publish/", None),
        ("publish/App", Some(b"bin")),
    ]);
    let mut archive = open_bundle(bytes).unwrap();
    let batch = extract_bundle(&mut archive);
    let actions = extraction_actions("/tmp/devcade", "g1", batch.entries);
    assert_eq!(actions.len(), 2);
    match &actions[0] {
        FsAction::MakeDir { path } => assert_eq!(path, "/tmp/devcade/g1/publish/"),
        FsAction::WriteFile { .. } => panic!("directory entry must plan a MakeDir"),
    }
    match &actions[1] {
        FsAction::WriteFile { path, data } => {
            assert_eq!(path, "/tmp/devcade/g1/publish/App");
            assert_eq!(data, b"bin");
        }
        FsAction::MakeDir { .. } => panic!("file entry must plan a WriteFile"),
    }
}

#[test]
fn missing_manifest_forces_download() {
    let remote = sample_game("g1", "abc");
    assert!(needs_download(&None, &remote));
}

#[test]
fn matching_hash_skips_download() {
    let remote = sample_game("g1", "abc");
    let local = Some(sample_game("g1", "abc"));
    assert!(!needs_download(&local, &remote));
}

#[test]
fn changed_hash_forces_download() {
    let remote = sample_game("g1", "new-hash");
    let local = Some(sample_game("g1", "abc"));
    assert!(needs_download(&local, &remote));
}

#[test]
fn second_ensure_with_unchanged_hash_skips() {
    // First call installs and records the remote game as the manifest;
    // ensuring again with the same hash must not fetch.
    let remote1 = sample_game("g1", "abc");
    assert!(needs_download(&None, &remote1));
    let manifest = Some(remote1);
    let remote2 = sample_game("g1", "abc");
    assert!(!needs_download(&manifest, &remote2));
}

#[test]
fn cached_asset_is_not_refetched() {
    assert!(!should_fetch_asset(true));
    assert!(should_fetch_asset(false));
}
