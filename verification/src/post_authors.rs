//! Who wrote which post.

use crate::table::Row;
use vstd::prelude::*;

verus! {

/// One author of one post.
#[derive(Clone, Debug, PartialEq, Eq)]
pub struct PostAuthor {
    pub id: i32,
    pub post_id: i32,
    pub author_id: i32,
}

impl Row for PostAuthor {
    open spec fn key(&self) -> i32 {
        self.id
    }

    fn id(&self) -> (id: i32) {
        self.id
    }

    fn copy(&self) -> (row: PostAuthor) {
        PostAuthor {
            id: self.id,
            post_id: self.post_id,
            author_id: self.author_id,
        }
    }
}
} // verus!
