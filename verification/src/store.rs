//! The local state that federation reads and changes: one table for each
//! kind of row.

use crate::blogs::Blog;
use crate::comment_seers::CommentSeers;
use crate::comments::Comment;
use crate::follows::Follow;
use crate::likes::Like;
use crate::medias::Media;
use crate::mentions::Mention;
use crate::post_authors::PostAuthor;
use crate::posts::Post;
use crate::reshares::Reshare;
use crate::table::{distinct_addresses, Table, TableView};
use crate::tags::Tag;
use crate::users::User;
use vstd::prelude::*;

verus! {

/// Why an operation on the store failed.
#[derive(Debug, Copy, Clone, PartialEq, Eq, Structural)]
pub enum Error {
    /// There is no such row.
    NotFound,
    /// A table has no identifier left for a new row.
    Full,
}

/// The local state.
pub struct Store {
    /// The identifier of this instance.
    pub local_instance: i32,
    /// The domain under which this instance is reached.
    pub local_domain: String,
    /// The time with which new rows are stamped, in seconds since the Unix
    /// epoch.
    pub now: i64,
    pub users: Table<User>,
    pub blogs: Table<Blog>,
    pub posts: Table<Post>,
    pub post_authors: Table<PostAuthor>,
    pub comments: Table<Comment>,
    pub comment_seers: Table<CommentSeers>,
    pub follows: Table<Follow>,
    pub likes: Table<Like>,
    pub reshares: Table<Reshare>,
    pub tags: Table<Tag>,
    pub mentions: Table<Mention>,
    pub medias: Table<Media>,
}

/// The content of a `Store`.
pub struct StoreView {
    pub local_instance: i32,
    pub local_domain: Seq<char>,
    pub now: i64,
    pub users: TableView<User>,
    pub blogs: TableView<Blog>,
    pub posts: TableView<Post>,
    pub post_authors: TableView<PostAuthor>,
    pub comments: TableView<Comment>,
    pub comment_seers: TableView<CommentSeers>,
    pub follows: TableView<Follow>,
    pub likes: TableView<Like>,
    pub reshares: TableView<Reshare>,
    pub tags: TableView<Tag>,
    pub mentions: TableView<Mention>,
    pub medias: TableView<Media>,
}

impl View for Store {
    type V = StoreView;

    open spec fn view(&self) -> StoreView {
        StoreView {
            local_instance: self.local_instance,
            local_domain: self.local_domain@,
            now: self.now,
            users: self.users@,
            blogs: self.blogs@,
            posts: self.posts@,
            post_authors: self.post_authors@,
            comments: self.comments@,
            comment_seers: self.comment_seers@,
            follows: self.follows@,
            likes: self.likes@,
            reshares: self.reshares@,
            tags: self.tags@,
            mentions: self.mentions@,
            medias: self.medias@,
        }
    }
}

impl StoreView {
    /// Whether nothing that is known to other instances shares its address
    /// with another of its kind.
    pub open spec fn addressed(self) -> bool {
        &&& distinct_addresses(self.users.rows)
        &&& distinct_addresses(self.blogs.rows)
        &&& distinct_addresses(self.posts.rows)
        &&& distinct_addresses(self.comments.rows)
        &&& distinct_addresses(self.follows.rows)
        &&& distinct_addresses(self.likes.rows)
        &&& distinct_addresses(self.reshares.rows)
    }
}

impl Store {
    /// An empty store for the instance with the given identifier and
    /// domain.
    pub fn new(local_instance: i32, local_domain: String, now: i64) -> (store: Store)
        ensures
            store.local_instance == local_instance,
            store.local_domain == local_domain,
            store.now == now,
            store.wf(),
            store@.addressed(),
            store.users@.rows.len() == 0,
            store.blogs@.rows.len() == 0,
            store.posts@.rows.len() == 0,
            store.post_authors@.rows.len() == 0,
            store.comments@.rows.len() == 0,
            store.comment_seers@.rows.len() == 0,
            store.follows@.rows.len() == 0,
            store.likes@.rows.len() == 0,
            store.reshares@.rows.len() == 0,
            store.tags@.rows.len() == 0,
            store.mentions@.rows.len() == 0,
            store.medias@.rows.len() == 0,
    {
        Store {
            local_instance,
            local_domain,
            now,
            users: Table::new(),
            blogs: Table::new(),
            posts: Table::new(),
            post_authors: Table::new(),
            comments: Table::new(),
            comment_seers: Table::new(),
            follows: Table::new(),
            likes: Table::new(),
            reshares: Table::new(),
            tags: Table::new(),
            mentions: Table::new(),
            medias: Table::new(),
        }
    }

    /// Every table is well formed.
    pub open spec fn wf(&self) -> bool {
        &&& self.users.wf()
        &&& self.blogs.wf()
        &&& self.posts.wf()
        &&& self.post_authors.wf()
        &&& self.comments.wf()
        &&& self.comment_seers.wf()
        &&& self.follows.wf()
        &&& self.likes.wf()
        &&& self.reshares.wf()
        &&& self.tags.wf()
        &&& self.mentions.wf()
        &&& self.medias.wf()
    }
}

} // verus!
