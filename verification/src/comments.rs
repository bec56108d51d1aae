//! Comments on posts.

use crate::activity::{ids, one_id, optional_text, Activity, ActivityKind, Object};
use crate::activity_pub::{Id, PUBLIC_VISIBILITY};
use crate::comment_seers::CommentSeers;
use crate::listing::{count_of, counted};
use crate::posts::{deletion, Post};
use crate::store::{Error, Store, StoreView};
use crate::table::{first_match, with_key, Addressed, Row, TableView};
use crate::text::{copy_optional_text, copy_text, join2, same_text};
use crate::users::User;
use vstd::prelude::*;

verus! {

/// One comment on a post.
#[derive(Clone, Debug, PartialEq, Eq)]
pub struct Comment {
    pub id: i32,
    pub content: String,
    /// The comment that is answered, if any.
    pub in_response_to_id: Option<i32>,
    pub post_id: i32,
    pub author_id: i32,
    /// Seconds since the Unix epoch.
    pub creation_date: i64,
    pub ap_url: Option<String>,
    pub sensitive: bool,
    pub spoiler_text: String,
    /// Whether the comment was addressed to everyone.
    pub public_visibility: bool,
}

impl Row for Comment {
    open spec fn key(&self) -> i32 {
        self.id
    }

    fn id(&self) -> (id: i32) {
        self.id
    }

    fn copy(&self) -> (row: Comment) {
        Comment {
            id: self.id,
            content: copy_text(&self.content),
            in_response_to_id: self.in_response_to_id,
            post_id: self.post_id,
            author_id: self.author_id,
            creation_date: self.creation_date,
            ap_url: copy_optional_text(&self.ap_url),
            sensitive: self.sensitive,
            spoiler_text: copy_text(&self.spoiler_text),
            public_visibility: self.public_visibility,
        }
    }
}

impl Addressed for Comment {
    open spec fn address(&self) -> Option<Seq<char>> {
        optional_text(self.ap_url)
    }

    fn has_address(&self, url: &str) -> (yes: bool) {
        match &self.ap_url {
            Some(own) => same_text(own.as_str(), url),
            None => false,
        }
    }
}

/// A comment to be stored.
#[derive(Clone, Debug, PartialEq, Eq)]
pub struct NewComment {
    pub content: String,
    pub in_response_to_id: Option<i32>,
    pub post_id: i32,
    pub author_id: i32,
    pub ap_url: Option<String>,
    pub sensitive: bool,
    pub spoiler_text: String,
    pub public_visibility: bool,
}

/// The comments on a post.
pub open spec fn on_post(post_id: i32) -> spec_fn(Comment) -> bool {
    |comment: Comment| comment.post_id == post_id
}

/// The answers to a comment.
pub open spec fn answering(comment_id: i32) -> spec_fn(Comment) -> bool {
    |comment: Comment| comment.in_response_to_id == Some(comment_id)
}

/// The comments of the users of an instance.
pub open spec fn written_on(users: Seq<User>, instance_id: i32) -> spec_fn(Comment) -> bool {
    |comment: Comment|
        match first_match(users, with_key(comment.author_id)) {
            Some(user) => user.instance_id == instance_id,
            None => false,
        }
}

/// The record that a user may see a comment.
pub open spec fn seen_by(comment_id: i32, user_id: i32) -> spec_fn(CommentSeers) -> bool {
    |seer: CommentSeers| seer.comment_id == comment_id && seer.user_id == user_id
}

/// Whether a user may see a comment: everyone may see a public one; of the
/// others, a user sees those for which this is recorded.
pub open spec fn visible(seers: Seq<CommentSeers>, comment: Comment, user_id: Option<i32>) -> bool {
    comment.public_visibility || match user_id {
        Some(user_id) => first_match(seers, seen_by(comment.id, user_id)) is Some,
        None => false,
    }
}

/// The address that a comment of this instance gets: that of its post,
/// then `comment/` and its identifier.
pub open spec fn own_address(post: Post, id: i32) -> Seq<char> {
    post.ap_url@ + "comment/"@ + crate::posts::digits(id as int)
}

impl Comment {
    /// The comment with an identifier.
    pub fn get(store: &Store, id: i32) -> (found: Result<Comment, Error>)
        ensures
            found == match store.comments.by_id(id) {
                Some(comment) => Ok::<Comment, Error>(comment),
                None => Err::<Comment, Error>(Error::NotFound),
            },
    {
        match store.comments.get(id) {
            Some(comment) => Ok(comment.copy()),
            None => Err(Error::NotFound),
        }
    }

    /// The comment with an address.
    pub fn find_by_ap_url(store: &Store, ap_url: &str) -> (found: Result<Comment, Error>)
        ensures
            found == match store.comments.by_url(ap_url@) {
                Some(comment) => Ok::<Comment, Error>(comment),
                None => Err::<Comment, Error>(Error::NotFound),
            },
    {
        match store.comments.find(ap_url) {
            Some(comment) => Ok(comment.copy()),
            None => Err(Error::NotFound),
        }
    }

    /// The comments on a post, in the order in which they were stored.
    pub fn list_by_post(store: &Store, post_id: i32) -> (comments: Vec<Comment>)
        ensures
            comments@ == store.comments@.rows.filter(on_post(post_id)),
    {
        let test = |comment: &Comment| -> (yes: bool)
            ensures
                yes == on_post(post_id)(*comment),
            { comment.post_id == post_id };
        store.comments.select(test, Ghost(on_post(post_id)))
    }

    /// Store a comment, stamped with the time of the store. A comment
    /// without an address gets one made of the address of its post, which
    /// must then be stored. On failure nothing changes.
    pub fn insert(store: &mut Store, new: NewComment) -> (stored: Result<Comment, Error>)
        ensures
            match stored {
                Ok(comment) => {
                    &&& old(store).comments.next_id < i32::MAX
                    &&& comment.id == old(store).comments.next_id
                    &&& comment.content == new.content
                    &&& comment.in_response_to_id == new.in_response_to_id
                    &&& comment.post_id == new.post_id
                    &&& comment.author_id == new.author_id
                    &&& comment.creation_date == old(store).now
                    &&& comment.sensitive == new.sensitive
                    &&& comment.spoiler_text == new.spoiler_text
                    &&& comment.public_visibility == new.public_visibility
                    &&& match new.ap_url {
                        Some(ap_url) => comment.ap_url == Some(ap_url),
                        None => old(store).posts.by_id(new.post_id) matches Some(post)
                            && optional_text(comment.ap_url) == Some(own_address(post, comment.id)),
                    }
                    &&& final(store)@ == (StoreView {
                        comments: TableView {
                            rows: old(store).comments@.rows.push(comment),
                            next_id: (old(store).comments.next_id + 1) as i32,
                        },
                        ..old(store)@
                    })
                },
                Err(error) => {
                    &&& final(store)@ == old(store)@
                    &&& error == if old(store).comments.next_id == i32::MAX {
                        Error::Full
                    } else {
                        Error::NotFound
                    }
                    &&& old(store).comments.next_id == i32::MAX || (new.ap_url is None && old(
                        store,
                    ).posts.by_id(new.post_id) is None)
                },
            },
            old(store).wf() ==> final(store).wf(),
    {
        if store.comments.next_id == i32::MAX {
            return Err(Error::Full);
        }
        let id = store.comments.next_id;
        let ap_url = match new.ap_url {
            Some(ap_url) => ap_url,
            None => match store.posts.get(new.post_id) {
                Some(post) => String::from_str(post.ap_url.as_str()).concat("comment/").concat(
                    crate::posts::decimal(id as i64).as_str(),
                ),
                None => { return Err(Error::NotFound); },
            },
        };
        let comment = Comment {
            id,
            content: new.content,
            in_response_to_id: new.in_response_to_id,
            post_id: new.post_id,
            author_id: new.author_id,
            creation_date: store.now,
            ap_url: Some(ap_url),
            sensitive: new.sensitive,
            spoiler_text: new.spoiler_text,
            public_visibility: new.public_visibility,
        };
        let stored = comment.copy();
        store.comments.add(comment);
        Ok(stored)
    }

    /// The author of the comment.
    pub fn get_author(&self, store: &Store) -> (author: Result<User, Error>)
        ensures
            author == match store.users.by_id(self.author_id) {
                Some(found) => Ok::<User, Error>(found),
                None => Err::<User, Error>(Error::NotFound),
            },
    {
        User::get(store, self.author_id)
    }

    /// The post that is commented on.
    pub fn get_post(&self, store: &Store) -> (post: Result<Post, Error>)
        ensures
            post == match store.posts.by_id(self.post_id) {
                Some(found) => Ok::<Post, Error>(found),
                None => Err::<Post, Error>(Error::NotFound),
            },
    {
        Post::get(store, self.post_id)
    }

    /// The number of comments that users of this instance wrote.
    pub fn count_local(store: &Store) -> (count: i64)
        ensures
            count == counted(
                store.comments@.rows.filter(
                    written_on(store.users@.rows, store.local_instance),
                ).len() as int,
            ),
    {
        let instance_id = store.local_instance;
        let test = |comment: &Comment| -> (yes: bool)
            ensures
                yes == written_on(store.users@.rows, instance_id)(*comment),
            {
                match store.users.get(comment.author_id) {
                    Some(user) => user.instance_id == instance_id,
                    None => false,
                }
            };
        count_of(store.comments.count(test, Ghost(written_on(store.users@.rows, instance_id))))
    }

    /// The answers to the comment, in the order in which they were stored.
    pub fn get_responses(&self, store: &Store) -> (answers: Vec<Comment>)
        ensures
            answers@ == store.comments@.rows.filter(answering(self.id)),
    {
        let comment_id = self.id;
        let test = |comment: &Comment| -> (yes: bool)
            ensures
                yes == answering(comment_id)(*comment),
            {
                match comment.in_response_to_id {
                    Some(id) => id == comment_id,
                    None => false,
                }
            };
        store.comments.select(test, Ghost(answering(comment_id)))
    }

    /// Whether a user, or a visitor who is no user, may see the comment.
    pub fn can_see(&self, store: &Store, user: Option<&User>) -> (yes: bool)
        ensures
            yes == visible(
                store.comment_seers@.rows,
                *self,
                match user {
                    Some(user) => Some(user.id),
                    None => None,
                },
            ),
    {
        if self.public_visibility {
            return true;
        }
        match user {
            Some(user) => {
                let comment_id = self.id;
                let user_id = user.id;
                let test = |seer: &CommentSeers| -> (yes: bool)
                    ensures
                        yes == seen_by(comment_id, user_id)(*seer),
                    { seer.comment_id == comment_id && seer.user_id == user_id };
                store.comment_seers.any(test, Ghost(seen_by(comment_id, user_id)))
            },
            None => false,
        }
    }

    /// The activity that tells of the deletion of the comment, by its
    /// author. It needs the author, and the comment must have an address.
    pub fn build_delete(&self, store: &Store) -> (activity: Result<Activity, Error>)
        ensures
            match (store.users.by_id(self.author_id), self.ap_url) {
                (Some(author), Some(ap_url)) => activity matches Ok(made) && made@ == deletion(
                    ap_url@,
                    author,
                ),
                _ => activity == Err::<Activity, Error>(Error::NotFound),
            },
    {
        let author = match store.users.get(self.author_id) {
            Some(author) => author,
            None => { return Err(Error::NotFound); },
        };
        let ap_url = match &self.ap_url {
            Some(ap_url) => ap_url,
            None => { return Err(Error::NotFound); },
        };
        let cc: Vec<Id> = Vec::new();
        assert(ids(cc@) =~= Seq::empty());
        Ok(
            Activity {
                kind: ActivityKind::Delete,
                id: join2(ap_url.as_str(), "#delete"),
                actor: Id::new(copy_text(&author.ap_url)),
                object: Object::Tombstone(Id::new(copy_text(ap_url))),
                to: one_id(PUBLIC_VISIBILITY),
                cc,
            },
        )
    }
}

/// A comment with the answers to it, each with its own answers.
#[derive(Debug)]
pub struct CommentTree {
    pub comment: Comment,
    pub responses: Vec<CommentTree>,
}

/// The content of a `CommentTree`.
pub struct Thread {
    pub comment: Comment,
    pub answers: Seq<Thread>,
}

/// The content of a tree.
pub open spec fn content(tree: CommentTree) -> Thread
    decreases tree,
{
    Thread {
        comment: tree.comment,
        answers: Seq::new(
            tree.responses@.len(),
            |i: int|
                if 0 <= i < tree.responses@.len() {
                    content(tree.responses@[i])
                } else {
                    arbitrary()
                },
        ),
    }
}

impl View for CommentTree {
    type V = Thread;

    open spec fn view(&self) -> Thread {
        content(*self)
    }
}

/// The answers to a comment that a viewer may see.
pub open spec fn shown_answer(seers: Seq<CommentSeers>, comment_id: i32, user_id: Option<i32>)
    -> spec_fn(Comment) -> bool {
    |comment: Comment|
        comment.in_response_to_id == Some(comment_id) && visible(seers, comment, user_id)
}

/// The comments on a post that answer no comment and that a viewer may
/// see.
pub open spec fn shown_first(seers: Seq<CommentSeers>, post_id: i32, user_id: Option<i32>)
    -> spec_fn(Comment) -> bool {
    |comment: Comment|
        comment.post_id == post_id && comment.in_response_to_id is None && visible(
            seers,
            comment,
            user_id,
        )
}

/// The thread of a comment for a viewer: the comment, and the threads of
/// the answers to it that the viewer may see, to a given depth. At depth
/// zero the answers are left out.
pub open spec fn thread_of(store: Store, comment: Comment, user_id: Option<i32>, depth: nat) -> Thread
    decreases depth,
{
    let answers = store.comments@.rows.filter(
        shown_answer(store.comment_seers@.rows, comment.id, user_id),
    );
    Thread {
        comment,
        answers: if depth == 0 {
            Seq::empty()
        } else {
            Seq::new(
                answers.len(),
                |i: int| thread_of(store, answers[i], user_id, (depth - 1) as nat),
            )
        },
    }
}

/// The threads of some comments.
pub open spec fn threads_of(store: Store, comments: Seq<Comment>, user_id: Option<i32>, depth: nat)
    -> Seq<Thread> {
    Seq::new(comments.len(), |i: int| thread_of(store, comments[i], user_id, depth))
}

/// Trees by their content.
pub open spec fn threads(trees: Seq<CommentTree>) -> Seq<Thread> {
    Seq::new(trees.len(), |i: int| trees[i]@)
}

/// The identifier of a user who may be absent.
pub open spec fn viewer(user: Option<&User>) -> Option<i32> {
    match user {
        Some(user) => Some(user.id),
        None => None,
    }
}

impl CommentTree {
    /// The trees of some comments, to a given depth.
    fn grow(store: &Store, comments: &Vec<Comment>, user: Option<&User>, depth: usize) -> (trees:
        Vec<CommentTree>)
        ensures
            threads(trees@) == threads_of(*store, comments@, viewer(user), depth as nat),
        decreases depth, comments@.len() + 1,
    {
        let mut trees: Vec<CommentTree> = Vec::new();
        let mut i: usize = 0;
        while i < comments.len()
            invariant
                i <= comments@.len(),
                trees@.len() == i,
                forall|j: int|
                    0 <= j < i ==> (#[trigger] trees@[j])@ == thread_of(
                        *store,
                        comments@[j],
                        viewer(user),
                        depth as nat,
                    ),
            decreases comments@.len() - i,
        {
            let tree = CommentTree::from_comment_within(store, comments[i].copy(), user, depth);
            trees.push(tree);
            i += 1;
        }
        assert(threads(trees@) =~= threads_of(*store, comments@, viewer(user), depth as nat));
        trees
    }

    /// The tree of a comment for a viewer, to a given depth.
    pub fn from_comment_within(store: &Store, comment: Comment, user: Option<&User>, depth: usize)
        -> (tree: CommentTree)
        ensures
            tree@ == thread_of(*store, comment, viewer(user), depth as nat),
        decreases depth, 0nat,
    {
        let responses = if depth == 0 {
            Vec::new()
        } else {
            let comment_id = comment.id;
            let ghost user_id = viewer(user);
            let test = |answer: &Comment| -> (yes: bool)
                ensures
                    yes == shown_answer(store.comment_seers@.rows, comment_id, user_id)(*answer),
                {
                    (match answer.in_response_to_id {
                        Some(id) => id == comment_id,
                        None => false,
                    }) && answer.can_see(store, user)
                };
            let answers = store.comments.select(
                test,
                Ghost(shown_answer(store.comment_seers@.rows, comment_id, user_id)),
            );
            CommentTree::grow(store, &answers, user, depth - 1)
        };
        let tree = CommentTree { comment, responses };
        proof {
            let expected = thread_of(*store, comment, viewer(user), depth as nat);
            assert(tree@.answers.len() == tree.responses@.len());
            assert forall|i: int| 0 <= i < tree.responses@.len() implies tree@.answers[i]
                == threads(tree.responses@)[i] by {}
            assert(tree@.answers =~= threads(tree.responses@));
            assert(tree@.answers =~= expected.answers);
        }
        tree
    }

    /// The tree of a comment for a viewer. It goes as deep as there are
    /// comments in the store: as deep as answers can go.
    pub fn from_comment(store: &Store, comment: Comment, user: Option<&User>) -> (tree: Result<
        CommentTree,
        Error,
    >)
        ensures
            tree matches Ok(made) && made@ == thread_of(
                *store,
                comment,
                viewer(user),
                store.comments@.rows.len(),
            ),
    {
        Ok(CommentTree::from_comment_within(store, comment, user, store.comments.rows.len()))
    }

    /// The trees of the comments on a post that answer no comment, for a
    /// viewer.
    pub fn from_post(store: &Store, p: &Post, user: Option<&User>) -> (trees: Result<
        Vec<CommentTree>,
        Error,
    >)
        ensures
            trees matches Ok(made) && threads(made@) == threads_of(
                *store,
                store.comments@.rows.filter(
                    shown_first(store.comment_seers@.rows, p.id, viewer(user)),
                ),
                viewer(user),
                store.comments@.rows.len(),
            ),
    {
        let post_id = p.id;
        let ghost user_id = viewer(user);
        let test = |comment: &Comment| -> (yes: bool)
            ensures
                yes == shown_first(store.comment_seers@.rows, post_id, user_id)(*comment),
            {
                comment.post_id == post_id && comment.in_response_to_id.is_none()
                    && comment.can_see(store, user)
            };
        let first = store.comments.select(
            test,
            Ghost(shown_first(store.comment_seers@.rows, post_id, user_id)),
        );
        Ok(CommentTree::grow(store, &first, user, store.comments.rows.len()))
    }
}

} // verus!
