//! Reshares of posts.

use crate::activity::{
    one_id, Activity, ActivityKind, ActivityView, Embedded, EmbeddedView, Object, ObjectView,
};
use crate::activity_pub::{Id, IntoId, PUBLIC_VISIBILITY};
use crate::listing::{limit_to, limited, recent_first, sort_recent, Dated};
use crate::posts::Post;
use crate::store::{Error, Store, StoreView};
use crate::table::{
    first_match, lemma_first_match_at, lemma_first_match_none, Addressed, Row, TableView,
};
use crate::text::{copy_text, join2, join3, same_text};
use crate::users::User;
use vstd::prelude::*;

verus! {

/// One reshare of one post by one user.
#[derive(Clone, Debug, PartialEq, Eq)]
pub struct Reshare {
    pub id: i32,
    pub user_id: i32,
    pub post_id: i32,
    pub ap_url: String,
    /// Seconds since the Unix epoch.
    pub creation_date: i64,
}

impl Row for Reshare {
    open spec fn key(&self) -> i32 {
        self.id
    }

    fn id(&self) -> (id: i32) {
        self.id
    }

    fn copy(&self) -> (row: Reshare) {
        Reshare {
            id: self.id,
            user_id: self.user_id,
            post_id: self.post_id,
            ap_url: copy_text(&self.ap_url),
            creation_date: self.creation_date,
        }
    }
}

impl Addressed for Reshare {
    open spec fn address(&self) -> Option<Seq<char>> {
        Some(self.ap_url@)
    }

    fn has_address(&self, url: &str) -> (yes: bool) {
        same_text(self.ap_url.as_str(), url)
    }
}

/// A reshare to be stored.
#[derive(Clone, Debug, PartialEq, Eq)]
pub struct NewReshare {
    pub user_id: i32,
    pub post_id: i32,
    pub ap_url: String,
}

/// The reshares of one post by one user.
pub open spec fn by_user_on_post(user_id: i32, post_id: i32) -> spec_fn(Reshare) -> bool {
    |reshare: Reshare| reshare.user_id == user_id && reshare.post_id == post_id
}

/// The activity that announces a reshare: the user reshares the post, everyone is
/// addressed, with the user's followers in copy.
pub open spec fn reshare_activity(reshare: Reshare, user: User, post: Post) -> ActivityView {
    ActivityView {
        kind: ActivityKind::Announce,
        id: reshare.ap_url@,
        actor: user.ap_url@,
        object: ObjectView::Link(post.ap_url@),
        to: seq![PUBLIC_VISIBILITY@],
        cc: seq![user.followers_endpoint@],
    }
}

/// The activity that takes a reshare back: it carries the activity that
/// announced the reshare.
pub open spec fn reshare_undo(reshare: Reshare, user: User, post: Post) -> ActivityView {
    ActivityView {
        kind: ActivityKind::Undo,
        id: reshare.ap_url@ + "#delete"@,
        actor: user.ap_url@,
        object: ObjectView::Activity(
            EmbeddedView {
                kind: ActivityKind::Announce,
                id: reshare.ap_url@,
                actor: user.ap_url@,
                object: post.ap_url@,
                to: seq![PUBLIC_VISIBILITY@],
                cc: seq![user.followers_endpoint@],
            },
        ),
        to: seq![PUBLIC_VISIBILITY@],
        cc: seq![user.followers_endpoint@],
    }
}

/// The store after a reshare was added.
pub open spec fn with_reshare(store: StoreView, reshare: Reshare) -> StoreView {
    StoreView {
        reshares: TableView {
            rows: store.reshares.rows.push(reshare),
            next_id: (store.reshares.next_id + 1) as i32,
        },
        ..store
    }
}

impl Reshare {
    /// The reshare with an identifier.
    pub fn get(store: &Store, id: i32) -> (found: Result<Reshare, Error>)
        ensures
            found == match store.reshares.by_id(id) {
                Some(reshare) => Ok::<Reshare, Error>(reshare),
                None => Err::<Reshare, Error>(Error::NotFound),
            },
    {
        match store.reshares.get(id) {
            Some(reshare) => Ok(reshare.copy()),
            None => Err(Error::NotFound),
        }
    }

    /// The reshare with an address.
    pub fn find_by_ap_url(store: &Store, ap_url: &str) -> (found: Result<Reshare, Error>)
        ensures
            found == match store.reshares.by_url(ap_url@) {
                Some(reshare) => Ok::<Reshare, Error>(reshare),
                None => Err::<Reshare, Error>(Error::NotFound),
            },
    {
        match store.reshares.find(ap_url) {
            Some(reshare) => Ok(reshare.copy()),
            None => Err(Error::NotFound),
        }
    }

    /// The reshare of a post by a user.
    pub fn find_by_user_on_post(store: &Store, user_id: i32, post_id: i32) -> (found: Result<
        Reshare,
        Error,
    >)
        ensures
            found == match first_match(store.reshares@.rows, by_user_on_post(user_id, post_id)) {
                Some(reshare) => Ok::<Reshare, Error>(reshare),
                None => Err::<Reshare, Error>(Error::NotFound),
            },
    {
        let rows = &store.reshares.rows;
        let mut i: usize = 0;
        while i < rows.len()
            invariant
                i <= rows@.len(),
                rows@ == store.reshares@.rows,
                forall|j: int|
                    0 <= j < i ==> !(rows@[j].user_id == user_id && rows@[j].post_id == post_id),
            decreases rows@.len() - i,
        {
            if rows[i].user_id == user_id && rows[i].post_id == post_id {
                proof {
                    lemma_first_match_at(rows@, by_user_on_post(user_id, post_id), i as int);
                }
                return Ok(rows[i].copy());
            }
            i += 1;
        }
        proof {
            lemma_first_match_none(rows@, by_user_on_post(user_id, post_id));
        }
        Err(Error::NotFound)
    }

    /// Store a reshare, stamped with the time of the store. It fails only where the
    /// table is full, and then changes nothing.
    pub fn insert(store: &mut Store, new: NewReshare) -> (stored: Result<Reshare, Error>)
        ensures
            match stored {
                Ok(reshare) => {
                    &&& old(store).reshares.next_id < i32::MAX
                    &&& reshare == Reshare {
                        id: old(store).reshares.next_id,
                        user_id: new.user_id,
                        post_id: new.post_id,
                        creation_date: old(store).now,
                        ap_url: new.ap_url,
                    }
                    &&& final(store)@ == with_reshare(old(store)@, reshare)
                },
                Err(error) => {
                    &&& old(store).reshares.next_id == i32::MAX
                    &&& error == Error::Full
                    &&& final(store)@ == old(store)@
                },
            },
            old(store).wf() ==> final(store).wf(),
    {
        if store.reshares.next_id == i32::MAX {
            return Err(Error::Full);
        }
        let reshare = Reshare {
            id: store.reshares.next_id,
            user_id: new.user_id,
            post_id: new.post_id,
            creation_date: store.now,
            ap_url: new.ap_url,
        };
        let stored = reshare.copy();
        store.reshares.add(reshare);
        Ok(stored)
    }

    /// The activity that announces this reshare. It needs the user and the post.
    pub fn to_activity(&self, store: &Store) -> (activity: Result<Activity, Error>)
        ensures
            match (store.users.by_id(self.user_id), store.posts.by_id(self.post_id)) {
                (Some(user), Some(post)) => activity matches Ok(made) && made@ == reshare_activity(
                    *self,
                    user,
                    post,
                ),
                _ => activity == Err::<Activity, Error>(Error::NotFound),
            },
    {
        let user = match store.users.get(self.user_id) {
            Some(user) => user,
            None => { return Err(Error::NotFound); },
        };
        let post = match store.posts.get(self.post_id) {
            Some(post) => post,
            None => { return Err(Error::NotFound); },
        };
        Ok(
            Activity {
                kind: ActivityKind::Announce,
                id: copy_text(&self.ap_url),
                actor: Id::new(copy_text(&user.ap_url)),
                object: Object::Link(Id::new(copy_text(&post.ap_url))),
                to: one_id(PUBLIC_VISIBILITY),
                cc: one_id(user.followers_endpoint.as_str()),
            },
        )
    }

    /// The activity that takes this reshare back. It needs the user and the post.
    pub fn build_undo(&self, store: &Store) -> (activity: Result<Activity, Error>)
        ensures
            match (store.users.by_id(self.user_id), store.posts.by_id(self.post_id)) {
                (Some(user), Some(post)) => activity matches Ok(made) && made@ == reshare_undo(
                    *self,
                    user,
                    post,
                ),
                _ => activity == Err::<Activity, Error>(Error::NotFound),
            },
    {
        let user = match store.users.get(self.user_id) {
            Some(user) => user,
            None => { return Err(Error::NotFound); },
        };
        let post = match store.posts.get(self.post_id) {
            Some(post) => post,
            None => { return Err(Error::NotFound); },
        };
        let announced = Embedded {
            kind: ActivityKind::Announce,
            id: copy_text(&self.ap_url),
            actor: Id::new(copy_text(&user.ap_url)),
            object: Id::new(copy_text(&post.ap_url)),
            to: one_id(PUBLIC_VISIBILITY),
            cc: one_id(user.followers_endpoint.as_str()),
        };
        Ok(
            Activity {
                kind: ActivityKind::Undo,
                id: join2(self.ap_url.as_str(), "#delete"),
                actor: Id::new(copy_text(&user.ap_url)),
                object: Object::Activity(announced),
                to: one_id(PUBLIC_VISIBILITY),
                cc: one_id(user.followers_endpoint.as_str()),
            },
        )
    }
}

impl NewReshare {
    /// The reshare of a post by a user, with an address made of theirs.
    pub fn new(p: &Post, u: &User) -> (new: NewReshare)
        ensures
            new.post_id == p.id,
            new.user_id == u.id,
            new.ap_url@ == u.ap_url@ + "/reshare/"@ + p.ap_url@,
    {
        NewReshare {
            post_id: p.id,
            user_id: u.id,
            ap_url: join3(u.ap_url.as_str(), "/reshare/", p.ap_url.as_str()),
        }
    }
}

impl IntoId for Reshare {
    fn into_id(self) -> (id: Id)
        ensures
            id.0 == self.ap_url,
    {
        Id::new(self.ap_url)
    }
}

impl Dated for Reshare {
    open spec fn date(&self) -> i64 {
        self.creation_date
    }

    fn stamp(&self) -> (secs: i64) {
        self.creation_date
    }
}

/// The reshares of a user.
pub open spec fn reshared_by(user_id: i32) -> spec_fn(Reshare) -> bool {
    |reshare: Reshare| reshare.user_id == user_id
}

impl Reshare {
    /// The most recent reshares of a user, up to a limit.
    pub fn get_recents_for_author(store: &Store, user: &User, limit: i64) -> (reshares: Vec<
        Reshare,
    >)
        ensures
            reshares@ == limited(
                recent_first(store.reshares@.rows.filter(reshared_by(user.id))),
                limit,
            ),
    {
        let user_id = user.id;
        let test = |reshare: &Reshare| -> (yes: bool)
            ensures
                yes == reshared_by(user_id)(*reshare),
            { reshare.user_id == user_id };
        let all = store.reshares.select(test, Ghost(reshared_by(user_id)));
        limit_to(&sort_recent(&all), limit)
    }

    /// The post that was reshared.
    pub fn get_post(&self, store: &Store) -> (post: Result<Post, Error>)
        ensures
            post == match store.posts.by_id(self.post_id) {
                Some(found) => Ok::<Post, Error>(found),
                None => Err::<Post, Error>(Error::NotFound),
            },
    {
        Post::get(store, self.post_id)
    }

    /// The user who reshared.
    pub fn get_user(&self, store: &Store) -> (user: Result<User, Error>)
        ensures
            user == match store.users.by_id(self.user_id) {
                Some(found) => Ok::<User, Error>(found),
                None => Err::<User, Error>(Error::NotFound),
            },
    {
        User::get(store, self.user_id)
    }
}

} // verus!
