//! Catalog request paths, relative to the service's base URL. Keeping them in
//! one place keeps the paths consistent across the crate.

use vstd::prelude::*;
use vstd::string::*;

verus! {

/// Path listing every game.
pub fn game_list() -> (r: String)
    ensures
        r@ == "games/"@,
{
    String::from_str("games/")
}

/// Path of one game by id.
pub fn game(id: &str) -> (r: String)
    ensures
        r@ == "games/"@ + id@,
{
    let mut s = String::from_str("games/");
    s.append(id);
    s
}

/// Path of a game's icon.
pub fn game_icon(id: &str) -> (r: String)
    ensures
        r@ == "games/"@ + id@ + "/icon"@,
{
    let mut s = String::from_str("games/");
    s.append(id);
    s.append("/icon");
    s
}

/// Path of a game's banner.
pub fn game_banner(id: &str) -> (r: String)
    ensures
        r@ == "games/"@ + id@ + "/banner"@,
{
    let mut s = String::from_str("games/");
    s.append(id);
    s.append("/banner");
    s
}

/// Path of a game's binary bundle.
pub fn game_download(id: &str) -> (r: String)
    ensures
        r@ == "games/"@ + id@ + "/game"@,
{
    let mut s = String::from_str("games/");
    s.append(id);
    s.append("/game");
    s
}

/// Path listing every tag.
pub fn tag_list() -> (r: String)
    ensures
        r@ == "tags/"@,
{
    String::from_str("tags/")
}

/// Path of one tag by name.
pub fn tag(name: &str) -> (r: String)
    ensures
        r@ == "tags/"@ + name@,
{
    let mut s = String::from_str("tags/");
    s.append(name);
    s
}

/// Path listing the games that carry a tag.
pub fn tag_games(name: &str) -> (r: String)
    ensures
        r@ == "tags/"@ + name@ + "/games"@,
{
    let mut s = String::from_str("tags/");
    s.append(name);
    s.append("/games");
    s
}

/// Path of one user by id.
pub fn user(uid: &str) -> (r: String)
    ensures
        r@ == "users/"@ + uid@,
{
    let mut s = String::from_str("users/");
    s.append(uid);
    s
}

/// A full request URL: the base URL, a slash, and a relative path.
pub fn join_url(base: &str, rest: &str) -> (r: String)
    ensures
        r@ == base@ + "/"@ + rest@,
{
    let mut s = String::from_str(base);
    s.append("/");
    s.append(rest);
    s
}

} // verus!
