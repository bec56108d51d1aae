//! Blogs: where posts are published.

use crate::activity_pub::{Id, IntoId};
use crate::table::{Addressed, Row};
use crate::text::{copy_text, same_text};
use vstd::prelude::*;

verus! {

/// A blog, of this instance or of another one.
#[derive(Clone, Debug, PartialEq, Eq)]
pub struct Blog {
    pub id: i32,
    /// The name of the blog in addresses.
    pub actor_id: String,
    pub title: String,
    /// The name by which the blog is found from any instance.
    pub fqn: String,
    pub ap_url: String,
    pub inbox_url: String,
    pub instance_id: i32,
}

impl Row for Blog {
    open spec fn key(&self) -> i32 {
        self.id
    }

    fn id(&self) -> (id: i32) {
        self.id
    }

    fn copy(&self) -> (row: Blog) {
        Blog {
            id: self.id,
            actor_id: copy_text(&self.actor_id),
            title: copy_text(&self.title),
            fqn: copy_text(&self.fqn),
            ap_url: copy_text(&self.ap_url),
            inbox_url: copy_text(&self.inbox_url),
            instance_id: self.instance_id,
        }
    }
}

impl Addressed for Blog {
    open spec fn address(&self) -> Option<Seq<char>> {
        Some(self.ap_url@)
    }

    fn has_address(&self, url: &str) -> (yes: bool) {
        same_text(self.ap_url.as_str(), url)
    }
}

/// A blog to be stored.
#[derive(Clone, Debug, PartialEq, Eq)]
pub struct NewBlog {
    pub actor_id: String,
    pub title: String,
    pub fqn: String,
    pub ap_url: String,
    pub inbox_url: String,
    pub instance_id: i32,
}

impl IntoId for Blog {
    fn into_id(self) -> (id: Id)
        ensures
            id.0 == self.ap_url,
    {
        Id::new(self.ap_url)
    }
}
} // verus!
