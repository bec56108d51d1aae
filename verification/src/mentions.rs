//! Mentions of users in posts and comments.

use crate::activity::{TagLink, TagLinkView};
use crate::store::{Error, Store, StoreView};
use crate::table::Row;
use crate::text::{copy_text, join2};
use crate::users::User;
use vstd::prelude::*;

verus! {

/// One mention of a user, in a post or in a comment.
#[derive(Clone, Debug, PartialEq, Eq)]
pub struct Mention {
    pub id: i32,
    pub mentioned_id: i32,
    pub post_id: Option<i32>,
    pub comment_id: Option<i32>,
}

impl Row for Mention {
    open spec fn key(&self) -> i32 {
        self.id
    }

    fn id(&self) -> (id: i32) {
        self.id
    }

    fn copy(&self) -> (row: Mention) {
        Mention {
            id: self.id,
            mentioned_id: self.mentioned_id,
            post_id: self.post_id,
            comment_id: self.comment_id,
        }
    }
}

/// The mentions in a post.
pub open spec fn in_post(post_id: i32) -> spec_fn(Mention) -> bool {
    |mention: Mention| mention.post_id == Some(post_id)
}

/// The reference that stands for a mention of a user: the address of the
/// user, and the user's name after an at sign.
pub open spec fn mention_link(user: User) -> TagLinkView {
    TagLinkView::Mention { href: user.ap_url@, name: "@"@ + user.fqn@ }
}

/// The reference that stands for a mention, where the user is known.
pub open spec fn link_of(store: Store, mention: Mention) -> Option<TagLinkView> {
    match store.users.by_id(mention.mentioned_id) {
        Some(user) => Some(mention_link(user)),
        None => None,
    }
}

impl Mention {
    /// The mentions in a post, in the order in which they were stored.
    pub fn list_for_post(store: &Store, post_id: i32) -> (mentions: Vec<Mention>)
        ensures
            mentions@ == store.mentions@.rows.filter(in_post(post_id)),
    {
        let test = |mention: &Mention| -> (yes: bool)
            ensures
                yes == (mention.post_id == Some(post_id)),
            {
                match mention.post_id {
                    Some(id) => id == post_id,
                    None => false,
                }
            };
        store.mentions.select(test, Ghost(in_post(post_id)))
    }

    /// The reference that stands for this mention in an article. It needs
    /// the user who is mentioned.
    pub fn to_activity(&self, store: &Store) -> (link: Result<TagLink, Error>)
        ensures
            match link_of(*store, *self) {
                Some(view) => link matches Ok(made) && made@ == view,
                None => link == Err::<TagLink, Error>(Error::NotFound),
            },
    {
        match store.users.get(self.mentioned_id) {
            Some(user) => Ok(
                TagLink::Mention {
                    href: copy_text(&user.ap_url),
                    name: join2("@", user.fqn.as_str()),
                },
            ),
            None => Err(Error::NotFound),
        }
    }

    /// Take this mention out of the store.
    pub fn delete(&self, store: &mut Store) -> (done: Result<(), Error>)
        ensures
            done is Ok == old(store).mentions.by_id(self.id) is Some,
            done matches Err(error) ==> error == Error::NotFound && final(store)@ == old(store)@,
            final(store)@ == (StoreView { mentions: final(store).mentions@, ..old(store)@ }),
            final(store).mentions@.next_id == old(store).mentions@.next_id,
            old(store).wf() ==> final(store).wf(),
    {
        if store.mentions.remove(self.id) {
            Ok(())
        } else {
            Err(Error::NotFound)
        }
    }
}

} // verus!
