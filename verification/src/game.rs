//! Catalog entities: games, tags and users.

use vstd::prelude::*;

verus! {

/// A game record as the remote catalog describes it. The `hash` field is an
/// opaque fingerprint of the bundle's current content: it changes exactly when
/// the bundle content changes upstream.
pub struct DevcadeGame {
    pub id: String,
    pub author: String,
    pub upload_date: String,
    pub name: String,
    pub hash: String,
    pub description: String,
    pub icon_link: String,
    pub banner_link: String,
}

/// A game record whose every field is empty: the sentinel that the
/// current-game slot holds before any launch.
pub open spec fn game_is_empty(g: DevcadeGame) -> bool {
    &&& g.id@ == Seq::<char>::empty()
    &&& g.author@ == Seq::<char>::empty()
    &&& g.upload_date@ == Seq::<char>::empty()
    &&& g.name@ == Seq::<char>::empty()
    &&& g.hash@ == Seq::<char>::empty()
    &&& g.description@ == Seq::<char>::empty()
    &&& g.icon_link@ == Seq::<char>::empty()
    &&& g.banner_link@ == Seq::<char>::empty()
}

impl Clone for DevcadeGame {
    fn clone(&self) -> (res: Self)
        ensures
            res == *self,
    {
        DevcadeGame {
            id: self.id.clone(),
            author: self.author.clone(),
            upload_date: self.upload_date.clone(),
            name: self.name.clone(),
            hash: self.hash.clone(),
            description: self.description.clone(),
            icon_link: self.icon_link.clone(),
            banner_link: self.banner_link.clone(),
        }
    }
}

impl Default for DevcadeGame {
    /// The sentinel record: every field empty.
    fn default() -> (res: Self)
        ensures
            game_is_empty(res),
    {
        DevcadeGame {
            id: String::new(),
            author: String::new(),
            upload_date: String::new(),
            name: String::new(),
            hash: String::new(),
            description: String::new(),
            icon_link: String::new(),
            banner_link: String::new(),
        }
    }
}

/// The id-only projection that tag-filtered catalog queries return; it must be
/// hydrated into a full game record before use.
pub struct MinimalGame {
    pub id: String,
}

/// A tag groups games; the catalog relates tags and games many-to-many.
pub struct Tag {
    pub name: String,
    pub description: String,
}

/// An identity record the catalog returns on user lookup.
pub struct User {
    pub id: String,
    pub user_type: String,
    pub first_name: String,
    pub last_name: String,
    pub email: String,
    pub admin: bool,
}

} // verus!
