//! Who may see a comment that is not public.

use crate::table::Row;
use vstd::prelude::*;

verus! {

/// One user who may see one comment.
#[derive(Clone, Debug, PartialEq, Eq)]
pub struct CommentSeers {
    pub id: i32,
    pub comment_id: i32,
    pub user_id: i32,
}

impl Row for CommentSeers {
    open spec fn key(&self) -> i32 {
        self.id
    }

    fn id(&self) -> (id: i32) {
        self.id
    }

    fn copy(&self) -> (row: CommentSeers) {
        CommentSeers {
            id: self.id,
            comment_id: self.comment_id,
            user_id: self.user_id,
        }
    }
}
} // verus!
