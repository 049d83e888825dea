//! On-disk layout under the install root: one directory per game id, holding
//! the manifest, the art files and the runnable `publish` tree.

use vstd::prelude::*;
use vstd::string::*;

verus! {

/// The install root: the configured directory when one is set, the
/// well-known temporary location otherwise.
pub fn install_root_or_default(configured: Option<String>) -> (r: String)
    ensures
        configured matches Some(p) ==> r == p,
        configured is None ==> r@ == "/tmp/devcade"@,
{
    match configured {
        Some(p) => p,
        None => String::from_str("/tmp/devcade"),
    }
}

/// The directory a game's bundle is installed into.
pub open spec fn spec_game_dir(root: Seq<char>, id: Seq<char>) -> Seq<char> {
    root + "/"@ + id
}

pub fn game_dir(root: &str, id: &str) -> (r: String)
    ensures
        r@ == spec_game_dir(root@, id@),
{
    let mut s = String::from_str(root);
    s.append("/");
    s.append(id);
    s
}

/// The manifest file recording which bundle content is installed.
pub fn manifest_path(root: &str, id: &str) -> (r: String)
    ensures
        r@ == spec_game_dir(root@, id@) + "/game.json"@,
{
    let mut s = game_dir(root, id);
    s.append("/game.json");
    s
}

/// The directory holding the runnable payload.
pub fn publish_path(root: &str, id: &str) -> (r: String)
    ensures
        r@ == spec_game_dir(root@, id@) + "/publish"@,
{
    let mut s = game_dir(root, id);
    s.append("/publish");
    s
}

/// Where a game's icon is cached.
pub fn icon_path(root: &str, id: &str) -> (r: String)
    ensures
        r@ == spec_game_dir(root@, id@) + "/icon.png"@,
{
    let mut s = game_dir(root, id);
    s.append("/icon.png");
    s
}

/// Where a game's banner is cached.
pub fn banner_path(root: &str, id: &str) -> (r: String)
    ensures
        r@ == spec_game_dir(root@, id@) + "/banner.png"@,
{
    let mut s = game_dir(root, id);
    s.append("/banner.png");
    s
}

/// Where an archive entry lands when a bundle is extracted.
pub open spec fn spec_entry_path(root: Seq<char>, id: Seq<char>, name: Seq<char>) -> Seq<char> {
    spec_game_dir(root, id) + "/"@ + name
}

pub fn entry_path(root: &str, id: &str, name: &str) -> (r: String)
    ensures
        r@ == spec_entry_path(root@, id@, name@),
{
    let mut s = game_dir(root, id);
    s.append("/");
    s.append(name);
    s
}

/// `path` stays inside the game's directory: it is that directory's prefix
/// followed by a name that cannot climb out of it.
pub open spec fn confined_entry_path(path: Seq<char>, root: Seq<char>, id: Seq<char>) -> bool {
    let prefix = spec_game_dir(root, id) + "/"@;
    &&& path.len() >= prefix.len()
    &&& path.take(prefix.len() as int) == prefix
    &&& crate::text::is_confined_name(path.skip(prefix.len() as int))
}

/// Joining a confined name onto a game's directory yields a path that stays
/// inside that directory.
pub proof fn lemma_entry_path_confined(root: Seq<char>, id: Seq<char>, name: Seq<char>)
    requires
        crate::text::is_confined_name(name),
    ensures
        confined_entry_path(spec_entry_path(root, id, name), root, id),
{
    let prefix = spec_game_dir(root, id) + "/"@;
    let path = spec_entry_path(root, id, name);
    assert(path.take(prefix.len() as int) =~= prefix);
    assert(path.skip(prefix.len() as int) =~= name);
}

/// The resolved executable inside the runnable directory.
pub fn executable_path(root: &str, id: &str, executable: &str) -> (r: String)
    ensures
        r@ == spec_game_dir(root@, id@) + "/publish"@ + "/"@ + executable@,
{
    let mut s = publish_path(root, id);
    s.append("/");
    s.append(executable);
    s
}

} // verus!
