//! Actors: the users known to this instance, local and remote.

use crate::activity_pub::{Id, IntoId};
use crate::follows::{between, Follow};
use crate::store::{Error, Store};
use crate::table::{first_match, Addressed, Row};
use crate::text::{copy_optional_text, copy_text, same_text};
use vstd::prelude::*;

verus! {

/// A user, of this instance or of another one.
#[derive(Clone, Debug, PartialEq, Eq)]
pub struct User {
    pub id: i32,
    pub username: String,
    pub fqn: String,
    pub ap_url: String,
    pub inbox_url: String,
    pub shared_inbox_url: Option<String>,
    pub followers_endpoint: String,
    pub public_key: String,
    pub instance_id: i32,
}

/// A user to be stored.
#[derive(Clone, Debug, PartialEq, Eq)]
pub struct NewUser {
    pub username: String,
    pub fqn: String,
    pub ap_url: String,
    pub inbox_url: String,
    pub shared_inbox_url: Option<String>,
    pub followers_endpoint: String,
    pub public_key: String,
    pub instance_id: i32,
}

impl Row for User {
    open spec fn key(&self) -> i32 {
        self.id
    }

    fn id(&self) -> (id: i32) {
        self.id
    }

    fn copy(&self) -> (row: User) {
        User {
            id: self.id,
            username: copy_text(&self.username),
            fqn: copy_text(&self.fqn),
            ap_url: copy_text(&self.ap_url),
            inbox_url: copy_text(&self.inbox_url),
            shared_inbox_url: copy_optional_text(&self.shared_inbox_url),
            followers_endpoint: copy_text(&self.followers_endpoint),
            public_key: copy_text(&self.public_key),
            instance_id: self.instance_id,
        }
    }
}

impl Addressed for User {
    open spec fn address(&self) -> Option<Seq<char>> {
        Some(self.ap_url@)
    }

    fn has_address(&self, url: &str) -> (yes: bool) {
        same_text(self.ap_url.as_str(), url)
    }
}

/// The users who follow a user: those for whom a follow of that user is
/// stored.
pub open spec fn follower_of(follows: Seq<Follow>, followed: i32) -> spec_fn(User) -> bool {
    |user: User| first_match(follows, between(user.id, followed)) is Some
}

impl User {
    /// The user with an identifier.
    pub fn get(store: &Store, id: i32) -> (found: Result<User, Error>)
        ensures
            found == match store.users.by_id(id) {
                Some(user) => Ok::<User, Error>(user),
                None => Err::<User, Error>(Error::NotFound),
            },
    {
        match store.users.get(id) {
            Some(user) => Ok(user.copy()),
            None => Err(Error::NotFound),
        }
    }

    /// The user with an address.
    pub fn find_by_ap_url(store: &Store, ap_url: &str) -> (found: Result<User, Error>)
        ensures
            found == match store.users.by_url(ap_url@) {
                Some(user) => Ok::<User, Error>(user),
                None => Err::<User, Error>(Error::NotFound),
            },
    {
        match store.users.find(ap_url) {
            Some(user) => Ok(user.copy()),
            None => Err(Error::NotFound),
        }
    }

    /// The users who follow this user, in the order in which users were
    /// stored.
    pub fn get_followers(&self, store: &Store) -> (followers: Vec<User>)
        ensures
            followers@ == store.users@.rows.filter(follower_of(store.follows@.rows, self.id)),
    {
        let followed = self.id;
        let test = |user: &User| -> (yes: bool)
            ensures
                yes == follower_of(store.follows@.rows, followed)(*user),
            {
                let from = user.id;
                let follows = |follow: &Follow| -> (yes: bool)
                    ensures
                        yes == between(from, followed)(*follow),
                    { follow.follower_id == from && follow.following_id == followed };
                store.follows.any(follows, Ghost(between(from, followed)))
            };
        store.users.select(test, Ghost(follower_of(store.follows@.rows, followed)))
    }

    /// The inbox to deliver to for this user alone.
    pub fn get_inbox_url(&self) -> (url: String)
        ensures
            url == self.inbox_url,
    {
        copy_text(&self.inbox_url)
    }

    /// The inbox shared by all users of this user's instance, if it has one.
    pub fn get_shared_inbox_url(&self) -> (url: Option<String>)
        ensures
            url == self.shared_inbox_url,
    {
        copy_optional_text(&self.shared_inbox_url)
    }

    /// Whether the user belongs to the instance with the given identifier.
    pub fn is_local(&self, local_instance: i32) -> (local: bool)
        ensures
            local == (self.instance_id == local_instance),
    {
        self.instance_id == local_instance
    }

    /// The inbox that reaches this user with the fewest deliveries: the
    /// shared inbox of the instance where there is one.
    pub open spec fn preferred_inbox(&self) -> String {
        match self.shared_inbox_url {
            Some(url) => url,
            None => self.inbox_url,
        }
    }
}

impl IntoId for User {
    fn into_id(self) -> (id: Id)
        ensures
            id.0 == self.ap_url,
    {
        Id::new(self.ap_url)
    }
}

} // verus!
