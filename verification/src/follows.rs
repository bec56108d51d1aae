//! Who follows whom.

use crate::activity::{one_id, Activity, ActivityKind, ActivityView, Object, ObjectView};
use crate::activity_pub::{Id, IntoId, PUBLIC_VISIBILITY};
use crate::store::{Error, Store, StoreView};
use crate::table::{
    first_match, lemma_first_match_at, lemma_first_match_none, Addressed, Row, TableView,
};
use crate::text::{copy_text, join2, same_text};
use crate::users::User;
use vstd::prelude::*;

verus! {

/// One user following another.
#[derive(Clone, Debug, PartialEq, Eq)]
pub struct Follow {
    pub id: i32,
    pub follower_id: i32,
    pub following_id: i32,
    pub ap_url: String,
}

impl Row for Follow {
    open spec fn key(&self) -> i32 {
        self.id
    }

    fn id(&self) -> (id: i32) {
        self.id
    }

    fn copy(&self) -> (row: Follow) {
        Follow {
            id: self.id,
            follower_id: self.follower_id,
            following_id: self.following_id,
            ap_url: copy_text(&self.ap_url),
        }
    }
}

impl Addressed for Follow {
    open spec fn address(&self) -> Option<Seq<char>> {
        Some(self.ap_url@)
    }

    fn has_address(&self, url: &str) -> (yes: bool) {
        same_text(self.ap_url.as_str(), url)
    }
}

/// A follow to be stored.
#[derive(Clone, Debug, PartialEq, Eq)]
pub struct NewFollow {
    pub follower_id: i32,
    pub following_id: i32,
    pub ap_url: String,
}

/// The follows of one user by another.
pub open spec fn between(from: i32, to: i32) -> spec_fn(Follow) -> bool {
    |follow: Follow| follow.follower_id == from && follow.following_id == to
}

/// The activity that announces a follow: the follower follows the followed
/// user, who is addressed, with everyone in copy.
pub open spec fn follow_activity(follow: Follow, follower: User, followed: User) -> ActivityView {
    ActivityView {
        kind: ActivityKind::Follow,
        id: follow.ap_url@,
        actor: follower.ap_url@,
        object: ObjectView::Link(followed.ap_url@),
        to: seq![followed.ap_url@],
        cc: seq![PUBLIC_VISIBILITY@],
    }
}

/// The activity that takes a follow back.
pub open spec fn follow_undo(follow: Follow, follower: User, followed: User) -> ActivityView {
    ActivityView {
        kind: ActivityKind::Undo,
        id: follow.ap_url@ + "/undo"@,
        actor: follower.ap_url@,
        object: ObjectView::Link(follow.ap_url@),
        to: seq![followed.ap_url@],
        cc: seq![PUBLIC_VISIBILITY@],
    }
}

/// The store after a follow was added.
pub open spec fn with_follow(store: StoreView, follow: Follow) -> StoreView {
    StoreView {
        follows: TableView {
            rows: store.follows.rows.push(follow),
            next_id: (store.follows.next_id + 1) as i32,
        },
        ..store
    }
}

impl Follow {
    /// The follow with an identifier.
    pub fn get(store: &Store, id: i32) -> (found: Result<Follow, Error>)
        ensures
            found == match store.follows.by_id(id) {
                Some(follow) => Ok::<Follow, Error>(follow),
                None => Err::<Follow, Error>(Error::NotFound),
            },
    {
        match store.follows.get(id) {
            Some(follow) => Ok(follow.copy()),
            None => Err(Error::NotFound),
        }
    }

    /// The follow with an address.
    pub fn find_by_ap_url(store: &Store, ap_url: &str) -> (found: Result<Follow, Error>)
        ensures
            found == match store.follows.by_url(ap_url@) {
                Some(follow) => Ok::<Follow, Error>(follow),
                None => Err::<Follow, Error>(Error::NotFound),
            },
    {
        match store.follows.find(ap_url) {
            Some(follow) => Ok(follow.copy()),
            None => Err(Error::NotFound),
        }
    }

    /// The follow of one user by another.
    pub fn find(store: &Store, from: i32, to: i32) -> (found: Result<Follow, Error>)
        ensures
            found == match first_match(store.follows@.rows, between(from, to)) {
                Some(follow) => Ok::<Follow, Error>(follow),
                None => Err::<Follow, Error>(Error::NotFound),
            },
    {
        let rows = &store.follows.rows;
        let mut i: usize = 0;
        while i < rows.len()
            invariant
                i <= rows@.len(),
                rows@ == store.follows@.rows,
                forall|j: int|
                    0 <= j < i ==> !(rows@[j].follower_id == from && rows@[j].following_id == to),
            decreases rows@.len() - i,
        {
            if rows[i].follower_id == from && rows[i].following_id == to {
                proof {
                    lemma_first_match_at(rows@, between(from, to), i as int);
                }
                return Ok(rows[i].copy());
            }
            i += 1;
        }
        proof {
            lemma_first_match_none(rows@, between(from, to));
        }
        Err(Error::NotFound)
    }

    /// Store a follow. It fails only where the table is full, and then
    /// changes nothing.
    pub fn insert(store: &mut Store, new: NewFollow) -> (stored: Result<Follow, Error>)
        ensures
            match stored {
                Ok(follow) => {
                    &&& old(store).follows.next_id < i32::MAX
                    &&& follow == Follow {
                        id: old(store).follows.next_id,
                        follower_id: new.follower_id,
                        following_id: new.following_id,
                        ap_url: new.ap_url,
                    }
                    &&& final(store)@ == with_follow(old(store)@, follow)
                },
                Err(error) => {
                    &&& old(store).follows.next_id == i32::MAX
                    &&& error == Error::Full
                    &&& final(store)@ == old(store)@
                },
            },
            old(store).wf() ==> final(store).wf(),
    {
        if store.follows.next_id == i32::MAX {
            return Err(Error::Full);
        }
        let follow = Follow {
            id: store.follows.next_id,
            follower_id: new.follower_id,
            following_id: new.following_id,
            ap_url: new.ap_url,
        };
        let stored = follow.copy();
        store.follows.add(follow);
        Ok(stored)
    }

    /// The activity that announces this follow. It needs both users.
    pub fn to_activity(&self, store: &Store) -> (activity: Result<Activity, Error>)
        ensures
            match (store.users.by_id(self.follower_id), store.users.by_id(self.following_id)) {
                (Some(follower), Some(followed)) => activity matches Ok(made) && made@
                    == follow_activity(*self, follower, followed),
                _ => activity == Err::<Activity, Error>(Error::NotFound),
            },
    {
        let follower = match store.users.get(self.follower_id) {
            Some(user) => user,
            None => { return Err(Error::NotFound); },
        };
        let followed = match store.users.get(self.following_id) {
            Some(user) => user,
            None => { return Err(Error::NotFound); },
        };
        Ok(
            Activity {
                kind: ActivityKind::Follow,
                id: copy_text(&self.ap_url),
                actor: Id::new(copy_text(&follower.ap_url)),
                object: Object::Link(Id::new(copy_text(&followed.ap_url))),
                to: one_id(followed.ap_url.as_str()),
                cc: one_id(PUBLIC_VISIBILITY),
            },
        )
    }

    /// The activity that takes this follow back. It needs both users.
    pub fn build_undo(&self, store: &Store) -> (activity: Result<Activity, Error>)
        ensures
            match (store.users.by_id(self.follower_id), store.users.by_id(self.following_id)) {
                (Some(follower), Some(followed)) => activity matches Ok(made) && made@
                    == follow_undo(*self, follower, followed),
                _ => activity == Err::<Activity, Error>(Error::NotFound),
            },
    {
        let follower = match store.users.get(self.follower_id) {
            Some(user) => user,
            None => { return Err(Error::NotFound); },
        };
        let followed = match store.users.get(self.following_id) {
            Some(user) => user,
            None => { return Err(Error::NotFound); },
        };
        Ok(
            Activity {
                kind: ActivityKind::Undo,
                id: join2(self.ap_url.as_str(), "/undo"),
                actor: Id::new(copy_text(&follower.ap_url)),
                object: Object::Link(Id::new(copy_text(&self.ap_url))),
                to: one_id(followed.ap_url.as_str()),
                cc: one_id(PUBLIC_VISIBILITY),
            },
        )
    }
}

impl IntoId for Follow {
    fn into_id(self) -> (id: Id)
        ensures
            id.0 == self.ap_url,
    {
        Id::new(self.ap_url)
    }
}

} // verus!
