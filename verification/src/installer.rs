//! Content-addressed install decisions: when a bundle must be fetched, what
//! the manifest records afterwards, and how often the network is touched.
//!
//! "Ensure installed" always re-resolves the remote record first, so the
//! remote hash seen here is current. The fetch itself, the extraction of the
//! fetched archive and the manifest write happen around these functions; they
//! decide, and the lemmas below pin down how many fetches two consecutive
//! calls perform.

use vstd::prelude::*;
use crate::bundle::BundleEntry;
use crate::game::DevcadeGame;
use crate::paths::confined_entry_path;
use crate::paths::entry_path;
use crate::paths::lemma_entry_path_confined;
use crate::paths::spec_entry_path;
use crate::text::is_confined_name;

verus! {

/// The bundle must be fetched unless a manifest is present whose recorded
/// hash equals the remote record's current hash.
pub open spec fn spec_needs_download(local: Option<DevcadeGame>, remote: DevcadeGame) -> bool {
    match local {
        Some(l) => l.hash@ != remote.hash@,
        None => true,
    }
}

/// Decide whether a bundle fetch is needed. `local` is the parsed manifest
/// for the game, or `None` when the manifest is missing or malformed.
pub fn needs_download(local: &Option<DevcadeGame>, remote: &DevcadeGame) -> (r: bool)
    ensures
        r == spec_needs_download(*local, *remote),
{
    match local {
        Some(l) => !(l.hash == remote.hash),
        None => true,
    }
}

/// The manifest on disk after one "ensure installed" against `remote`: the
/// resolved remote record if a fetch ran, the old manifest untouched if not.
///
/// The manifest is recorded after every attempted extraction, even one whose
/// batch left warnings: the freshness check stays cheap, at the price that a
/// bundle with failed entries still reports itself as up to date. Callers
/// who care inspect the extraction batch's warnings.
pub open spec fn manifest_after_ensure(
    local: Option<DevcadeGame>,
    remote: DevcadeGame,
) -> Option<DevcadeGame> {
    if spec_needs_download(local, remote) {
        Some(remote)
    } else {
        local
    }
}

/// How many bundle payloads one "ensure installed" fetches.
pub open spec fn downloads_of_ensure(local: Option<DevcadeGame>, remote: DevcadeGame) -> nat {
    if spec_needs_download(local, remote) {
        1
    } else {
        0
    }
}

/// Whatever the first call found on disk, a second "ensure installed" with
/// the remote hash unchanged fetches nothing.
pub proof fn lemma_second_ensure_no_download(
    local: Option<DevcadeGame>,
    r1: DevcadeGame,
    r2: DevcadeGame,
)
    requires
        r2.hash@ == r1.hash@,
    ensures
        downloads_of_ensure(manifest_after_ensure(local, r1), r2) == 0,
{
}

/// Installing a game that is not yet on disk and then ensuring it again with
/// the remote hash unchanged fetches the bundle exactly once over both calls.
pub proof fn lemma_unchanged_hash_downloads_once(r1: DevcadeGame, r2: DevcadeGame)
    requires
        r2.hash@ == r1.hash@,
    ensures
        downloads_of_ensure(None, r1) + downloads_of_ensure(
            manifest_after_ensure(None, r1),
            r2,
        ) == 1,
{
}

/// If the remote hash changes between two "ensure installed" calls, the
/// second call fetches again, and the manifest afterwards records the new
/// remote hash.
pub proof fn lemma_changed_hash_redownloads(
    local: Option<DevcadeGame>,
    r1: DevcadeGame,
    r2: DevcadeGame,
)
    requires
        r2.hash@ != r1.hash@,
    ensures
        downloads_of_ensure(manifest_after_ensure(local, r1), r2) == 1,
        manifest_after_ensure(manifest_after_ensure(local, r1), r2) == Some(r2),
        manifest_after_ensure(manifest_after_ensure(local, r1), r2)->Some_0.hash@ == r2.hash@,
{
}

/// An already-cached asset (icon or banner) is never fetched again; a missing
/// one is.
pub fn should_fetch_asset(asset_exists: bool) -> (r: bool)
    ensures
        r == !asset_exists,
{
    !asset_exists
}

/// One filesystem step of an extraction: performed by the caller, in order.
/// Before a file is written, its parent directories are created as needed;
/// a failing step is logged and the rest still run.
pub enum FsAction {
    /// Create this directory and any missing parents.
    MakeDir { path: String },
    /// Write these bytes to this path, creating the file.
    WriteFile { path: String, data: Vec<u8> },
}

/// `a` is the step that installs extracted entry `e` under the game's
/// directory.
pub open spec fn action_for(a: FsAction, root: Seq<char>, id: Seq<char>, e: BundleEntry) -> bool {
    if e.is_dir {
        a matches FsAction::MakeDir { path } && path@ == spec_entry_path(root, id, e.name@)
    } else {
        a matches FsAction::WriteFile { path, data } && path@ == spec_entry_path(root, id, e.name@)
            && data@ == e.data@
    }
}

/// The step touches a path that stays inside the game's directory.
pub open spec fn action_confined(a: FsAction, root: Seq<char>, id: Seq<char>) -> bool {
    match a {
        FsAction::MakeDir { path } => confined_entry_path(path@, root, id),
        FsAction::WriteFile { path, data: _ } => confined_entry_path(path@, root, id),
    }
}

/// Plan the filesystem steps that install a batch of extracted entries into
/// the game's directory: one step per entry, in the archive's order, and
/// every planned path stays inside that game's directory. The entries come
/// from an extraction, which hands out confined names only.
pub fn extraction_actions(root: &str, id: &str, entries: Vec<BundleEntry>) -> (r: Vec<FsAction>)
    requires
        forall|k: int| 0 <= k < entries@.len() ==> is_confined_name(#[trigger] entries@[k].name@),
    ensures
        r@.len() == entries@.len(),
        forall|k: int|
            0 <= k < entries@.len() ==> action_for(#[trigger] r@[k], root@, id@, entries@[k]),
        forall|k: int| 0 <= k < r@.len() ==> action_confined(#[trigger] r@[k], root@, id@),
{
    let ghost all = entries@;
    let mut rest = entries;
    let mut out: Vec<FsAction> = Vec::new();
    proof {
        assert(all.skip(0) =~= all);
    }
    while rest.len() > 0
        invariant
            forall|k: int| 0 <= k < all.len() ==> is_confined_name(#[trigger] all[k].name@),
            out@.len() + rest@.len() == all.len(),
            rest@ == all.skip(out@.len() as int),
            forall|k: int| 0 <= k < out@.len() ==> action_for(#[trigger] out@[k], root@, id@, all[k]),
            forall|k: int| 0 <= k < out@.len() ==> action_confined(#[trigger] out@[k], root@, id@),
        decreases rest@.len(),
    {
        let ghost n = out@.len() as int;
        proof {
            assert(rest@[0] == all.skip(n)[0]);
            assert(all.skip(n)[0] == all[n]);
            assert(rest@.remove(0) =~= all.skip(n + 1));
            lemma_entry_path_confined(root@, id@, all[n].name@);
        }
        let e = rest.remove(0);
        let path = entry_path(root, id, e.name.as_str());
        if e.is_dir {
            out.push(FsAction::MakeDir { path });
        } else {
            out.push(FsAction::WriteFile { path, data: e.data });
        }
    }
    out
}

} // verus!
