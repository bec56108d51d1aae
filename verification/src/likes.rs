//! Likes of posts.

use crate::activity::{
    one_id, Activity, ActivityKind, ActivityView, Embedded, EmbeddedView, Object, ObjectView,
};
use crate::activity_pub::{Id, IntoId, PUBLIC_VISIBILITY};
use crate::posts::Post;
use crate::store::{Error, Store, StoreView};
use crate::table::{
    first_match, lemma_first_match_at, lemma_first_match_none, Addressed, Row, TableView,
};
use crate::text::{copy_text, join2, join3, same_text};
use crate::users::User;
use vstd::prelude::*;

verus! {

/// One like of one post by one user.
#[derive(Clone, Debug, PartialEq, Eq)]
pub struct Like {
    pub id: i32,
    pub user_id: i32,
    pub post_id: i32,
    /// Seconds since the Unix epoch.
    pub creation_date: i64,
    pub ap_url: String,
}

impl Row for Like {
    open spec fn key(&self) -> i32 {
        self.id
    }

    fn id(&self) -> (id: i32) {
        self.id
    }

    fn copy(&self) -> (row: Like) {
        Like {
            id: self.id,
            user_id: self.user_id,
            post_id: self.post_id,
            creation_date: self.creation_date,
            ap_url: copy_text(&self.ap_url),
        }
    }
}

impl Addressed for Like {
    open spec fn address(&self) -> Option<Seq<char>> {
        Some(self.ap_url@)
    }

    fn has_address(&self, url: &str) -> (yes: bool) {
        same_text(self.ap_url.as_str(), url)
    }
}

/// A like to be stored.
#[derive(Clone, Debug, PartialEq, Eq)]
pub struct NewLike {
    pub user_id: i32,
    pub post_id: i32,
    pub ap_url: String,
}

/// The likes of one post by one user.
pub open spec fn by_user_on_post(user_id: i32, post_id: i32) -> spec_fn(Like) -> bool {
    |like: Like| like.user_id == user_id && like.post_id == post_id
}

/// The activity that announces a like: the user likes the post, everyone is
/// addressed, with the user's followers in copy.
pub open spec fn like_activity(like: Like, user: User, post: Post) -> ActivityView {
    ActivityView {
        kind: ActivityKind::Like,
        id: like.ap_url@,
        actor: user.ap_url@,
        object: ObjectView::Link(post.ap_url@),
        to: seq![PUBLIC_VISIBILITY@],
        cc: seq![user.followers_endpoint@],
    }
}

/// The activity that takes a like back: it carries the activity that
/// announced the like.
pub open spec fn like_undo(like: Like, user: User, post: Post) -> ActivityView {
    ActivityView {
        kind: ActivityKind::Undo,
        id: like.ap_url@ + "#delete"@,
        actor: user.ap_url@,
        object: ObjectView::Activity(
            EmbeddedView {
                kind: ActivityKind::Like,
                id: like.ap_url@,
                actor: user.ap_url@,
                object: post.ap_url@,
                to: seq![PUBLIC_VISIBILITY@],
                cc: seq![user.followers_endpoint@],
            },
        ),
        to: seq![PUBLIC_VISIBILITY@],
        cc: seq![user.followers_endpoint@],
    }
}

/// The store after a like was added.
pub open spec fn with_like(store: StoreView, like: Like) -> StoreView {
    StoreView {
        likes: TableView {
            rows: store.likes.rows.push(like),
            next_id: (store.likes.next_id + 1) as i32,
        },
        ..store
    }
}

impl Like {
    /// The like with an identifier.
    pub fn get(store: &Store, id: i32) -> (found: Result<Like, Error>)
        ensures
            found == match store.likes.by_id(id) {
                Some(like) => Ok::<Like, Error>(like),
                None => Err::<Like, Error>(Error::NotFound),
            },
    {
        match store.likes.get(id) {
            Some(like) => Ok(like.copy()),
            None => Err(Error::NotFound),
        }
    }

    /// The like with an address.
    pub fn find_by_ap_url(store: &Store, ap_url: &str) -> (found: Result<Like, Error>)
        ensures
            found == match store.likes.by_url(ap_url@) {
                Some(like) => Ok::<Like, Error>(like),
                None => Err::<Like, Error>(Error::NotFound),
            },
    {
        match store.likes.find(ap_url) {
            Some(like) => Ok(like.copy()),
            None => Err(Error::NotFound),
        }
    }

    /// The like of a post by a user.
    pub fn find_by_user_on_post(store: &Store, user_id: i32, post_id: i32) -> (found: Result<
        Like,
        Error,
    >)
        ensures
            found == match first_match(store.likes@.rows, by_user_on_post(user_id, post_id)) {
                Some(like) => Ok::<Like, Error>(like),
                None => Err::<Like, Error>(Error::NotFound),
            },
    {
        let rows = &store.likes.rows;
        let mut i: usize = 0;
        while i < rows.len()
            invariant
                i <= rows@.len(),
                rows@ == store.likes@.rows,
                forall|j: int|
                    0 <= j < i ==> !(rows@[j].user_id == user_id && rows@[j].post_id == post_id),
            decreases rows@.len() - i,
        {
            if rows[i].user_id == user_id && rows[i].post_id == post_id {
                proof {
                    lemma_first_match_at(rows@, by_user_on_post(user_id, post_id), i as int);
                }
                return Ok(rows[i].copy());
            }
            i += 1;
        }
        proof {
            lemma_first_match_none(rows@, by_user_on_post(user_id, post_id));
        }
        Err(Error::NotFound)
    }

    /// Store a like, stamped with the time of the store. It fails only where the
    /// table is full, and then changes nothing.
    pub fn insert(store: &mut Store, new: NewLike) -> (stored: Result<Like, Error>)
        ensures
            match stored {
                Ok(like) => {
                    &&& old(store).likes.next_id < i32::MAX
                    &&& like == Like {
                        id: old(store).likes.next_id,
                        user_id: new.user_id,
                        post_id: new.post_id,
                        creation_date: old(store).now,
                        ap_url: new.ap_url,
                    }
                    &&& final(store)@ == with_like(old(store)@, like)
                },
                Err(error) => {
                    &&& old(store).likes.next_id == i32::MAX
                    &&& error == Error::Full
                    &&& final(store)@ == old(store)@
                },
            },
            old(store).wf() ==> final(store).wf(),
    {
        if store.likes.next_id == i32::MAX {
            return Err(Error::Full);
        }
        let like = Like {
            id: store.likes.next_id,
            user_id: new.user_id,
            post_id: new.post_id,
            creation_date: store.now,
            ap_url: new.ap_url,
        };
        let stored = like.copy();
        store.likes.add(like);
        Ok(stored)
    }

    /// The activity that announces this like. It needs the user and the post.
    pub fn to_activity(&self, store: &Store) -> (activity: Result<Activity, Error>)
        ensures
            match (store.users.by_id(self.user_id), store.posts.by_id(self.post_id)) {
                (Some(user), Some(post)) => activity matches Ok(made) && made@ == like_activity(
                    *self,
                    user,
                    post,
                ),
                _ => activity == Err::<Activity, Error>(Error::NotFound),
            },
    {
        let user = match store.users.get(self.user_id) {
            Some(user) => user,
            None => { return Err(Error::NotFound); },
        };
        let post = match store.posts.get(self.post_id) {
            Some(post) => post,
            None => { return Err(Error::NotFound); },
        };
        Ok(
            Activity {
                kind: ActivityKind::Like,
                id: copy_text(&self.ap_url),
                actor: Id::new(copy_text(&user.ap_url)),
                object: Object::Link(Id::new(copy_text(&post.ap_url))),
                to: one_id(PUBLIC_VISIBILITY),
                cc: one_id(user.followers_endpoint.as_str()),
            },
        )
    }

    /// The activity that takes this like back. It needs the user and the post.
    pub fn build_undo(&self, store: &Store) -> (activity: Result<Activity, Error>)
        ensures
            match (store.users.by_id(self.user_id), store.posts.by_id(self.post_id)) {
                (Some(user), Some(post)) => activity matches Ok(made) && made@ == like_undo(
                    *self,
                    user,
                    post,
                ),
                _ => activity == Err::<Activity, Error>(Error::NotFound),
            },
    {
        let user = match store.users.get(self.user_id) {
            Some(user) => user,
            None => { return Err(Error::NotFound); },
        };
        let post = match store.posts.get(self.post_id) {
            Some(post) => post,
            None => { return Err(Error::NotFound); },
        };
        let announced = Embedded {
            kind: ActivityKind::Like,
            id: copy_text(&self.ap_url),
            actor: Id::new(copy_text(&user.ap_url)),
            object: Id::new(copy_text(&post.ap_url)),
            to: one_id(PUBLIC_VISIBILITY),
            cc: one_id(user.followers_endpoint.as_str()),
        };
        Ok(
            Activity {
                kind: ActivityKind::Undo,
                id: join2(self.ap_url.as_str(), "#delete"),
                actor: Id::new(copy_text(&user.ap_url)),
                object: Object::Activity(announced),
                to: one_id(PUBLIC_VISIBILITY),
                cc: one_id(user.followers_endpoint.as_str()),
            },
        )
    }
}

impl NewLike {
    /// The like of a post by a user, with an address made of theirs.
    pub fn new(p: &Post, u: &User) -> (new: NewLike)
        ensures
            new.post_id == p.id,
            new.user_id == u.id,
            new.ap_url@ == u.ap_url@ + "/like/"@ + p.ap_url@,
    {
        NewLike {
            post_id: p.id,
            user_id: u.id,
            ap_url: join3(u.ap_url.as_str(), "/like/", p.ap_url.as_str()),
        }
    }
}

impl IntoId for Like {
    fn into_id(self) -> (id: Id)
        ensures
            id.0 == self.ap_url,
    {
        Id::new(self.ap_url)
    }
}

} // verus!
