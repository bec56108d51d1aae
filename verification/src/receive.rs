//! What each kind of activity does to the store.

use crate::activity::{ids, Activity, ActivityKind, LicensedArticle, Note, Object};
use crate::activity_pub::{Id, PUBLIC_VISIBILITY};
use crate::comments::Comment;
use crate::follows::{Follow, NewFollow};
use crate::inbox::{InboxError, InboxResult};
use crate::likes::{Like, NewLike};
use crate::mentions::Mention;
use crate::posts::{authorship, not_in_post, Post};
use crate::reshares::{NewReshare, Reshare};
use crate::resolve::{
    has_room, knows_user, lemma_stays_known, lemma_stays_resolved, pair_resolved, pair_stored,
    resolve_pair,
    resolve_user, resolved_as, roomy, user_known, Remote,
};
use crate::store::{Store, StoreView};
use crate::table::{
    extended, first_match, grown, lemma_distinct_push, lemma_filter_numbered,
    lemma_first_match_push, place_of, replaced, row_at, with_address, without, Addressed, Row,
    TableView,
};
use crate::text::{copy_text, same_text};
use crate::time::now;
use crate::users::User;
use vstd::prelude::*;

verus! {

/// What applying a follow does. The actor must be resolved first. Then a
/// follow that is stored under the address of the activity is given back,
/// once the actor is stored, if it was fetched. Otherwise the activity must
/// name the followed user by reference, that user must be resolved too, and
/// the store must have room: then the follow is stored, and the users that
/// were fetched with it.
pub open spec fn follow_received(
    before: StoreView,
    fetched: Seq<Remote>,
    activity: Activity,
    after: StoreView,
    result: Result<InboxResult, InboxError>,
) -> bool {
    if !user_known(before, fetched, activity.actor@) {
        result == Err::<InboxResult, InboxError>(InboxError::Resolution) && after == before
    } else {
        match row_at(before.follows, activity.id@) {
            Some(existing) => if row_at(before.users, activity.actor@) is None
                && before.users.next_id == i32::MAX {
                result == Err::<InboxResult, InboxError>(InboxError::Persistence) && after
                    == before
            } else {
                &&& result == Ok::<InboxResult, InboxError>(InboxResult::Followed(existing))
                &&& row_at(after.users, activity.actor@) is Some
                &&& extended(before.users, after.users)
                &&& after == (StoreView { users: after.users, ..before })
                &&& row_at(before.users, activity.actor@) is Some ==> after == before
            },
            None => match activity.object {
                Object::Link(target) => if !user_known(before, fetched, target@) {
                    result == Err::<InboxResult, InboxError>(InboxError::Resolution) && after
                        == before
                } else if !roomy(before, 2) {
                    result == Err::<InboxResult, InboxError>(InboxError::Persistence) && after
                        == before
                } else {
                    &&& result matches Ok(InboxResult::Followed(follow))
                    &&& follow.id == before.follows.next_id
                    &&& follow.ap_url == activity.id
                    &&& row_at(after.users, activity.actor@) matches Some(follower)
                    &&& follower.id == follow.follower_id
                    &&& row_at(after.users, target@) matches Some(followed)
                    &&& followed.id == follow.following_id
                    &&& after == (StoreView {
                        users: after.users,
                        follows: grown(before.follows, follow),
                        ..before
                    })
                    &&& row_at(after.follows, activity.id@) == Some(follow)
                },
                _ => result == Ok::<InboxResult, InboxError>(InboxResult::Other) && after
                    == before,
            },
        }
    }
}

/// Apply a follow.
pub fn receive_follow(store: &mut Store, fetched: &Vec<Remote>, activity: &Activity) -> (result:
    Result<InboxResult, InboxError>)
    ensures
        follow_received(old(store)@, fetched@, *activity, final(store)@, result),
        old(store).wf() ==> final(store).wf(),
        old(store)@.addressed() ==> final(store)@.addressed(),
{
    if !knows_user(store, fetched, activity.actor.as_str()) {
        return Err(InboxError::Resolution);
    }
    let stored = match store.follows.find(activity.id.as_str()) {
        Some(existing) => Some(existing.copy()),
        None => None,
    };
    match stored {
        Some(existing) => {
            return match resolve_user(store, fetched, activity.actor.as_str()) {
                Ok(_) => Ok(InboxResult::Followed(existing)),
                Err(error) => Err(error),
            };
        },
        None => {},
    }
    let target = match &activity.object {
        Object::Link(target) => target,
        _ => { return Ok(InboxResult::Other); },
    };
    if !knows_user(store, fetched, target.as_str()) {
        return Err(InboxError::Resolution);
    }
    if !has_room(store, 2) {
        return Err(InboxError::Persistence);
    }
    let follower = match resolve_user(store, fetched, activity.actor.as_str()) {
        Ok(user) => user,
        Err(error) => {
            // Not reached: what makes this fail was ruled out above.
            assert(false);
            return Err(error);
        },
    };
    let ghost middle = store@;
    proof {
        lemma_stays_known(old(store)@, fetched@, target@, middle);
    }
    let followed = match resolve_user(store, fetched, target.as_str()) {
        Ok(user) => user,
        Err(error) => {
            // Not reached: what makes this fail was ruled out above.
            assert(false);
            return Err(error);
        },
    };
    proof {
        lemma_stays_resolved(middle, store@, activity.actor@, follower);
    }
    let new = NewFollow {
        follower_id: follower.id,
        following_id: followed.id,
        ap_url: copy_text(&activity.id),
    };
    let ghost rows = store.follows@.rows;
    match Follow::insert(store, new) {
        Ok(follow) => {
            proof {
                lemma_first_match_push(rows, with_address(activity.id@), follow);
                if old(store)@.addressed() {
                    lemma_distinct_push(rows, follow);
                }
            }
            Ok(InboxResult::Followed(follow))
        },
        Err(_) => {
            // Not reached: what makes this fail was ruled out above.
            assert(false);
            Err(InboxError::Persistence)
        },
    }
}

/// What applying a like does. A like that is stored under the address of
/// the activity is given back. Otherwise the activity must name the post by
/// reference, and the user and the post are resolved: then the like is
/// stored, stamped with the time of the store.
pub open spec fn like_received(
    before: StoreView,
    fetched: Seq<Remote>,
    activity: Activity,
    after: StoreView,
    result: Result<InboxResult, InboxError>,
) -> bool {
    match row_at(before.likes, activity.id@) {
        Some(existing) => result == Ok::<InboxResult, InboxError>(InboxResult::Liked(existing))
            && after == before,
        None => match activity.object {
            Object::Link(target) => if pair_stored(before, activity.actor@, target@)
                && before.likes.next_id == i32::MAX {
                result == Err::<InboxResult, InboxError>(InboxError::Persistence) && after
                    == before
            } else {
                let resolved = StoreView { likes: before.likes, ..after };
                match result {
                    Ok(InboxResult::Liked(like)) => {
                        &&& row_at(after.users, activity.actor@) matches Some(user)
                        &&& row_at(after.posts, target@) matches Some(post)
                        &&& pair_resolved(
                            before,
                            fetched,
                            activity.actor@,
                            target@,
                            resolved,
                            Ok::<(User, Post), InboxError>((user, post)),
                        )
                        &&& like == Like {
                            id: before.likes.next_id,
                            user_id: user.id,
                            post_id: post.id,
                            creation_date: before.now,
                            ap_url: activity.id,
                        }
                        &&& after.likes == grown(before.likes, like)
                        &&& row_at(after.likes, activity.id@) == Some(like)
                    },
                    Ok(_) => false,
                    Err(error) => pair_resolved(
                        before,
                        fetched,
                        activity.actor@,
                        target@,
                        after,
                        Err::<(User, Post), InboxError>(error),
                    ),
                }
            },
            _ => result == Ok::<InboxResult, InboxError>(InboxResult::Other) && after == before,
        },
    }
}

/// Apply a like.
pub fn receive_like(store: &mut Store, fetched: &Vec<Remote>, activity: &Activity) -> (result:
    Result<InboxResult, InboxError>)
    ensures
        like_received(old(store)@, fetched@, *activity, final(store)@, result),
        old(store).wf() ==> final(store).wf(),
        old(store)@.addressed() ==> final(store)@.addressed(),
{
    match store.likes.find(activity.id.as_str()) {
        Some(existing) => { return Ok(InboxResult::Liked(existing.copy())); },
        None => {},
    }
    let target = match &activity.object {
        Object::Link(target) => target,
        _ => { return Ok(InboxResult::Other); },
    };
    let (user, post) = match resolve_pair(store, fetched, activity.actor.as_str(), target.as_str()) {
        Ok(pair) => pair,
        Err(error) => { return Err(error); },
    };
    let ghost resolved = store@;
    let new = NewLike { user_id: user.id, post_id: post.id, ap_url: copy_text(&activity.id) };
    let ghost rows = store.likes@.rows;
    match Like::insert(store, new) {
        Ok(like) => {
            proof {
                lemma_first_match_push(rows, with_address(activity.id@), like);
                if old(store)@.addressed() {
                    lemma_distinct_push(rows, like);
                }
                assert((StoreView { likes: old(store)@.likes, ..store@ }) == resolved);
            }
            Ok(InboxResult::Liked(like))
        },
        Err(_) => Err(InboxError::Persistence),
    }
}

/// What applying a reshare does. A reshare that is stored under the address of
/// the activity is given back. Otherwise the activity must name the post by
/// reference, and the user and the post are resolved: then the reshare is
/// stored, stamped with the time of the store.
pub open spec fn reshare_received(
    before: StoreView,
    fetched: Seq<Remote>,
    activity: Activity,
    after: StoreView,
    result: Result<InboxResult, InboxError>,
) -> bool {
    match row_at(before.reshares, activity.id@) {
        Some(existing) => result == Ok::<InboxResult, InboxError>(InboxResult::Reshared(existing))
            && after == before,
        None => match activity.object {
            Object::Link(target) => if pair_stored(before, activity.actor@, target@)
                && before.reshares.next_id == i32::MAX {
                result == Err::<InboxResult, InboxError>(InboxError::Persistence) && after
                    == before
            } else {
                let resolved = StoreView { reshares: before.reshares, ..after };
                match result {
                    Ok(InboxResult::Reshared(reshare)) => {
                        &&& row_at(after.users, activity.actor@) matches Some(user)
                        &&& row_at(after.posts, target@) matches Some(post)
                        &&& pair_resolved(
                            before,
                            fetched,
                            activity.actor@,
                            target@,
                            resolved,
                            Ok::<(User, Post), InboxError>((user, post)),
                        )
                        &&& reshare == Reshare {
                            id: before.reshares.next_id,
                            user_id: user.id,
                            post_id: post.id,
                            creation_date: before.now,
                            ap_url: activity.id,
                        }
                        &&& after.reshares == grown(before.reshares, reshare)
                        &&& row_at(after.reshares, activity.id@) == Some(reshare)
                    },
                    Ok(_) => false,
                    Err(error) => pair_resolved(
                        before,
                        fetched,
                        activity.actor@,
                        target@,
                        after,
                        Err::<(User, Post), InboxError>(error),
                    ),
                }
            },
            _ => result == Ok::<InboxResult, InboxError>(InboxResult::Other) && after == before,
        },
    }
}

/// Apply a reshare.
pub fn receive_reshare(store: &mut Store, fetched: &Vec<Remote>, activity: &Activity) -> (result:
    Result<InboxResult, InboxError>)
    ensures
        reshare_received(old(store)@, fetched@, *activity, final(store)@, result),
        old(store).wf() ==> final(store).wf(),
        old(store)@.addressed() ==> final(store)@.addressed(),
{
    match store.reshares.find(activity.id.as_str()) {
        Some(existing) => { return Ok(InboxResult::Reshared(existing.copy())); },
        None => {},
    }
    let target = match &activity.object {
        Object::Link(target) => target,
        _ => { return Ok(InboxResult::Other); },
    };
    let (user, post) = match resolve_pair(store, fetched, activity.actor.as_str(), target.as_str()) {
        Ok(pair) => pair,
        Err(error) => { return Err(error); },
    };
    let ghost resolved = store@;
    let new = NewReshare { user_id: user.id, post_id: post.id, ap_url: copy_text(&activity.id) };
    let ghost rows = store.reshares@.rows;
    match Reshare::insert(store, new) {
        Ok(reshare) => {
            proof {
                lemma_first_match_push(rows, with_address(activity.id@), reshare);
                if old(store)@.addressed() {
                    lemma_distinct_push(rows, reshare);
                }
                assert((StoreView { reshares: old(store)@.reshares, ..store@ }) == resolved);
            }
            Ok(InboxResult::Reshared(reshare))
        },
        Err(_) => Err(InboxError::Persistence),
    }
}

/// Whether an identifier is in a list.
pub fn has_id(list: &Vec<Id>, wanted: &str) -> (yes: bool)
    ensures
        yes == ids(list@).contains(wanted@),
{
    let mut i: usize = 0;
    while i < list.len()
        invariant
            i <= list@.len(),
            forall|j: int| 0 <= j < i ==> ids(list@)[j] != wanted@,
        decreases list@.len() - i,
    {
        if same_text(list[i].as_str(), wanted) {
            assert(ids(list@)[i as int] == wanted@);
            return true;
        }
        i += 1;
    }
    false
}

/// Whether something is addressed to everyone, directly or in copy.
pub open spec fn public(to: Seq<Id>, cc: Seq<Id>) -> bool {
    ids(to).contains(PUBLIC_VISIBILITY@) || ids(cc).contains(PUBLIC_VISIBILITY@)
}

/// How a comment shows the note it was made from. It is stamped with the
/// time of the store, and it is public if the note was addressed to
/// everyone.
pub open spec fn comment_from(comment: Comment, note: Note, now: i64) -> bool {
    &&& comment.content == note.content
    &&& comment.creation_date == now
    &&& comment.ap_url == Some(note.id)
    &&& comment.sensitive == note.sensitive
    &&& comment.spoiler_text == note.summary
    &&& comment.public_visibility == public(note.to@, note.cc@)
}

/// What receiving a note does. A comment that is stored under the address
/// of the note is given back. A note that answers nothing is no comment.
/// Otherwise what the note answers is resolved: a stored post, or else a
/// stored comment, or else a post that was fetched; and so is its author.
/// Then the comment is stored: on the post, and in answer to the comment
/// where the note answers one.
pub open spec fn note_received(
    before: StoreView,
    fetched: Seq<Remote>,
    note: Note,
    after: StoreView,
    result: Result<InboxResult, InboxError>,
) -> bool {
    match row_at(before.comments, note.id@) {
        Some(existing) => result == Ok::<InboxResult, InboxError>(
            InboxResult::Commented(existing),
        ) && after == before,
        None => match note.in_reply_to {
            None => result == Ok::<InboxResult, InboxError>(InboxResult::Other) && after == before,
            Some(target) => match (row_at(before.posts, target@), row_at(before.comments, target@)) {
                (None, Some(parent)) => if !user_known(before, fetched, note.attributed_to@) {
                    result == Err::<InboxResult, InboxError>(InboxError::Resolution) && after
                        == before
                } else if !roomy(before, 2) {
                    result == Err::<InboxResult, InboxError>(InboxError::Persistence) && after
                        == before
                } else {
                    &&& result matches Ok(InboxResult::Commented(comment))
                    &&& comment.id == before.comments.next_id
                    &&& comment_from(comment, note, before.now)
                    &&& comment.post_id == parent.post_id
                    &&& comment.in_response_to_id == Some(parent.id)
                    &&& resolved_as(after.users, note.attributed_to@, comment.author_id)
                    &&& extended(before.users, after.users)
                    &&& after == (StoreView {
                        users: after.users,
                        comments: grown(before.comments, comment),
                        ..before
                    })
                    &&& row_at(after.comments, note.id@) == Some(comment)
                },
                _ => if pair_stored(before, note.attributed_to@, target@)
                    && before.comments.next_id == i32::MAX {
                    result == Err::<InboxResult, InboxError>(InboxError::Persistence) && after
                        == before
                } else {
                    let resolved = StoreView { comments: before.comments, ..after };
                    match result {
                        Ok(InboxResult::Commented(comment)) => {
                            &&& row_at(after.users, note.attributed_to@) matches Some(user)
                            &&& row_at(after.posts, target@) matches Some(post)
                            &&& pair_resolved(
                                before,
                                fetched,
                                note.attributed_to@,
                                target@,
                                resolved,
                                Ok::<(User, Post), InboxError>((user, post)),
                            )
                            &&& comment.id == before.comments.next_id
                            &&& comment_from(comment, note, before.now)
                            &&& comment.post_id == post.id
                            &&& comment.in_response_to_id is None
                            &&& comment.author_id == user.id
                            &&& after.comments == grown(before.comments, comment)
                            &&& row_at(after.comments, note.id@) == Some(comment)
                        },
                        Ok(_) => false,
                        Err(error) => pair_resolved(
                            before,
                            fetched,
                            note.attributed_to@,
                            target@,
                            after,
                            Err::<(User, Post), InboxError>(error),
                        ),
                    }
                },
            },
        },
    }
}

/// Store the comment that a note shows.
fn store_comment(
    store: &mut Store,
    note: &Note,
    post_id: i32,
    in_response_to_id: Option<i32>,
    author_id: i32,
) -> (comment: Comment)
    requires
        old(store)@.comments.next_id < i32::MAX,
        row_at(old(store)@.comments, note.id@) is None,
    ensures
        comment.id == old(store)@.comments.next_id,
        comment_from(comment, *note, old(store)@.now),
        comment.post_id == post_id,
        comment.in_response_to_id == in_response_to_id,
        comment.author_id == author_id,
        final(store)@ == (StoreView {
            comments: grown(old(store)@.comments, comment),
            ..old(store)@
        }),
        row_at(final(store)@.comments, note.id@) == Some(comment),
        old(store).wf() ==> final(store).wf(),
        old(store)@.addressed() ==> final(store)@.addressed(),
{
    let everyone = has_id(&note.to, PUBLIC_VISIBILITY) || has_id(&note.cc, PUBLIC_VISIBILITY);
    let comment = Comment {
        id: store.comments.next_id,
        content: copy_text(&note.content),
        in_response_to_id,
        post_id,
        author_id,
        creation_date: store.now,
        ap_url: Some(copy_text(&note.id)),
        sensitive: note.sensitive,
        spoiler_text: copy_text(&note.summary),
        public_visibility: everyone,
    };
    let stored = comment.copy();
    proof {
        lemma_first_match_push(store.comments@.rows, with_address(note.id@), comment);
        if store@.addressed() {
            lemma_distinct_push(store.comments@.rows, comment);
        }
    }
    store.comments.add(comment);
    stored
}

/// Receive a note: store the comment that it shows, unless a comment is
/// stored under its address already.
pub fn receive_note(store: &mut Store, fetched: &Vec<Remote>, note: &Note) -> (result: Result<
    InboxResult,
    InboxError,
>)
    ensures
        note_received(old(store)@, fetched@, *note, final(store)@, result),
        old(store).wf() ==> final(store).wf(),
        old(store)@.addressed() ==> final(store)@.addressed(),
{
    match store.comments.find(note.id.as_str()) {
        Some(existing) => { return Ok(InboxResult::Commented(existing.copy())); },
        None => {},
    }
    let target = match &note.in_reply_to {
        Some(target) => target,
        None => { return Ok(InboxResult::Other); },
    };
    let parent = if store.posts.find(target.as_str()).is_some() {
        None
    } else {
        match store.comments.find(target.as_str()) {
            Some(parent) => Some((parent.id, parent.post_id)),
            None => None,
        }
    };
    match parent {
        Some((parent_id, post_id)) => {
            if !knows_user(store, fetched, note.attributed_to.as_str()) {
                return Err(InboxError::Resolution);
            }
            if !has_room(store, 2) {
                return Err(InboxError::Persistence);
            }
            let author = match resolve_user(store, fetched, note.attributed_to.as_str()) {
                Ok(author) => author,
                Err(error) => {
                    // Not reached: what makes this fail was ruled out above.
                    assert(false);
                    return Err(error);
                },
            };
            let comment = store_comment(store, note, post_id, Some(parent_id), author.id);
            Ok(InboxResult::Commented(comment))
        },
        None => {
            let (user, post) = match resolve_pair(
                store,
                fetched,
                note.attributed_to.as_str(),
                target.as_str(),
            ) {
                Ok(pair) => pair,
                Err(error) => { return Err(error); },
            };
            if store.comments.next_id == i32::MAX {
                return Err(InboxError::Persistence);
            }
            let ghost resolved = store@;
            let comment = store_comment(store, note, post.id, None, user.id);
            proof {
                assert((StoreView { comments: old(store)@.comments, ..store@ }) == resolved);
            }
            Ok(InboxResult::Commented(comment))
        },
    }
}

/// Whether the actor of an activity is a stored user who wrote a post.
pub open spec fn wrote(store: StoreView, actor: Seq<char>, post_id: i32) -> bool {
    match row_at(store.users, actor) {
        Some(user) => first_match(
            store.post_authors.rows,
            authorship(post_id, user.id),
        ) is Some,
        None => false,
    }
}

/// Whether the actor of an activity is the stored user with an identifier.
pub open spec fn acts_as(store: StoreView, actor: Seq<char>, user_id: i32) -> bool {
    match row_at(store.users, actor) {
        Some(user) => user.id == user_id,
        None => false,
    }
}

/// Decide whether the actor of an activity wrote a post.
fn is_writer(store: &Store, actor: &str, post: &Post) -> (yes: bool)
    ensures
        yes == wrote(store@, actor@, post.id),
{
    match store.users.find(actor) {
        Some(user) => post.is_author(store, user.id),
        None => false,
    }
}

/// Decide whether the actor of an activity is the user with an identifier.
fn is_user(store: &Store, actor: &str, user_id: i32) -> (yes: bool)
    ensures
        yes == acts_as(store@, actor@, user_id),
{
    match store.users.find(actor) {
        Some(user) => user.id == user_id,
        None => false,
    }
}

/// A post after a revision: title, subtitle, content, source and license
/// are those of the article; a missing license leaves the license as it
/// was.
pub open spec fn revised(post: Post, article: LicensedArticle, after: Post) -> bool {
    &&& after.id == post.id
    &&& after.blog_id == post.blog_id
    &&& after.slug == post.slug
    &&& after.title == article.object.name
    &&& after.content == article.object.content
    &&& after.published == post.published
    &&& after.license == match article.custom_props.license {
        Some(license) => license,
        None => post.license,
    }
    &&& after.creation_date == post.creation_date
    &&& after.ap_url == post.ap_url
    &&& after.subtitle == article.object.summary
    &&& after.source == article.object.source.content
    &&& after.cover_id == post.cover_id
}

/// What applying a revision does. The post must be stored, and the actor
/// must be one of its authors: then the post is revised where it stands.
pub open spec fn update_received(
    before: StoreView,
    actor: Seq<char>,
    article: LicensedArticle,
    after: StoreView,
    result: Result<InboxResult, InboxError>,
) -> bool {
    match place_of(before.posts, article.object.id@) {
        None => result == Err::<InboxResult, InboxError>(InboxError::Resolution) && after
            == before,
        Some(at) => if !wrote(before, actor, before.posts.rows[at].id) {
            result == Err::<InboxResult, InboxError>(InboxError::Rejected) && after == before
        } else {
            &&& result matches Ok(InboxResult::Post(post))
            &&& revised(before.posts.rows[at], article, post)
            &&& after == (StoreView { posts: replaced(before.posts, at, post), ..before })
        },
    }
}

/// Apply a revision of a post.
pub fn receive_update(store: &mut Store, actor: &str, article: &LicensedArticle) -> (result: Result<
    InboxResult,
    InboxError,
>)
    ensures
        update_received(old(store)@, actor@, *article, final(store)@, result),
        old(store).wf() ==> final(store).wf(),
        old(store)@.addressed() ==> final(store)@.addressed(),
{
    let at = match store.posts.locate(article.object.id.as_str()) {
        Some(at) => at,
        None => { return Err(InboxError::Resolution); },
    };
    if !is_writer(store, actor, &store.posts.rows[at]) {
        return Err(InboxError::Rejected);
    }
    let post = &store.posts.rows[at];
    let license = match &article.custom_props.license {
        Some(license) => copy_text(license),
        None => copy_text(&post.license),
    };
    let after = Post {
        id: post.id,
        blog_id: post.blog_id,
        slug: copy_text(&post.slug),
        title: copy_text(&article.object.name),
        content: copy_text(&article.object.content),
        published: post.published,
        license,
        creation_date: post.creation_date,
        ap_url: copy_text(&post.ap_url),
        subtitle: copy_text(&article.object.summary),
        source: copy_text(&article.object.source.content),
        cover_id: post.cover_id,
    };
    let stored = after.copy();
    store.posts.rows.set(at, after);
    Ok(InboxResult::Post(stored))
}

/// What applying a deletion does. A stored post with the address goes, with
/// the mentions in it, if the actor is one of its authors; or else a stored
/// comment with the address goes, if the actor is its author. Where
/// neither is stored, nothing happens.
pub open spec fn delete_received(
    before: StoreView,
    actor: Seq<char>,
    address: Seq<char>,
    after: StoreView,
    result: Result<InboxResult, InboxError>,
) -> bool {
    match place_of(before.posts, address) {
        Some(at) => if !wrote(before, actor, before.posts.rows[at].id) {
            result == Err::<InboxResult, InboxError>(InboxError::Rejected) && after == before
        } else {
            &&& result == Ok::<InboxResult, InboxError>(InboxResult::Other)
            &&& after == (StoreView {
                posts: without(before.posts, at),
                mentions: TableView {
                    rows: before.mentions.rows.filter(not_in_post(before.posts.rows[at].id)),
                    next_id: before.mentions.next_id,
                },
                ..before
            })
        },
        None => match place_of(before.comments, address) {
            Some(at) => if !acts_as(before, actor, before.comments.rows[at].author_id) {
                result == Err::<InboxResult, InboxError>(InboxError::Rejected) && after == before
            } else {
                &&& result == Ok::<InboxResult, InboxError>(InboxResult::Other)
                &&& after == (StoreView { comments: without(before.comments, at), ..before })
            },
            None => result == Ok::<InboxResult, InboxError>(InboxResult::Other) && after
                == before,
        },
    }
}

/// Apply a deletion.
pub fn receive_delete(store: &mut Store, actor: &str, address: &str) -> (result: Result<
    InboxResult,
    InboxError,
>)
    ensures
        delete_received(old(store)@, actor@, address@, final(store)@, result),
        old(store).wf() ==> final(store).wf(),
        old(store)@.addressed() ==> final(store)@.addressed(),
{
    match store.posts.locate(address) {
        Some(at) => {
            if !is_writer(store, actor, &store.posts.rows[at]) {
                return Err(InboxError::Rejected);
            }
            let post_id = store.posts.rows[at].id;
            let keep = |mention: &Mention| -> (yes: bool)
                ensures
                    yes == not_in_post(post_id)(*mention),
                {
                    match mention.post_id {
                        Some(id) => id != post_id,
                        None => true,
                    }
                };
            let kept = store.mentions.select(keep, Ghost(not_in_post(post_id)));
            proof {
                if store.wf() {
                    lemma_filter_numbered(
                        store.mentions@.rows,
                        not_in_post(post_id),
                        store.mentions.next_id,
                    );
                }
            }
            store.mentions.rows = kept;
            store.posts.rows.remove(at);
            Ok(InboxResult::Other)
        },
        None => match store.comments.locate(address) {
            Some(at) => {
                if !is_user(store, actor, store.comments.rows[at].author_id) {
                    return Err(InboxError::Rejected);
                }
                store.comments.rows.remove(at);
                Ok(InboxResult::Other)
            },
            None => Ok(InboxResult::Other),
        },
    }
}

/// Whether what is taken back is looked for among the rows that activities
/// of one kind leave: where the kind of what is taken back is told, among
/// those of that kind only, and else among all.
pub open spec fn sought(told: Option<ActivityKind>, kind: ActivityKind) -> bool {
    told is None || told == Some(kind)
}

/// Whether what is taken back is looked for among the rows of one kind.
pub fn seeks(told: Option<ActivityKind>, kind: ActivityKind) -> (yes: bool)
    ensures
        yes == sought(told, kind),
{
    match told {
        None => true,
        Some(told) => told == kind,
    }
}

/// Where a row stands under an address, if rows of its kind are looked
/// through at all.
pub open spec fn place_among<T: Addressed>(looked: bool, table: TableView<T>, address: Seq<char>) -> Option<
    int,
> {
    if looked {
        place_of(table, address)
    } else {
        None
    }
}

/// What taking something back does. A stored follow with the address goes,
/// or else a stored like, or else a stored reshare, if the actor is the
/// user whose it is; where the kind of what is taken back is told, only a
/// row of that kind goes. Where none is stored, nothing happens.
pub open spec fn undo_received(
    before: StoreView,
    actor: Seq<char>,
    address: Seq<char>,
    told: Option<ActivityKind>,
    after: StoreView,
    result: Result<InboxResult, InboxError>,
) -> bool {
    match place_among(sought(told, ActivityKind::Follow), before.follows, address) {
        Some(at) => if !acts_as(before, actor, before.follows.rows[at].follower_id) {
            result == Err::<InboxResult, InboxError>(InboxError::Rejected) && after == before
        } else {
            &&& result == Ok::<InboxResult, InboxError>(InboxResult::Other)
            &&& after == (StoreView { follows: without(before.follows, at), ..before })
        },
        None => match place_among(sought(told, ActivityKind::Like), before.likes, address) {
            Some(at) => if !acts_as(before, actor, before.likes.rows[at].user_id) {
                result == Err::<InboxResult, InboxError>(InboxError::Rejected) && after == before
            } else {
                &&& result == Ok::<InboxResult, InboxError>(InboxResult::Other)
                &&& after == (StoreView { likes: without(before.likes, at), ..before })
            },
            None => match place_among(
                sought(told, ActivityKind::Announce),
                before.reshares,
                address,
            ) {
                Some(at) => if !acts_as(before, actor, before.reshares.rows[at].user_id) {
                    result == Err::<InboxResult, InboxError>(InboxError::Rejected) && after
                        == before
                } else {
                    &&& result == Ok::<InboxResult, InboxError>(InboxResult::Other)
                    &&& after == (StoreView { reshares: without(before.reshares, at), ..before })
                },
                None => result == Ok::<InboxResult, InboxError>(InboxResult::Other) && after
                    == before,
            },
        },
    }
}

/// Take back what is stored under an address: a follow, a like or a
/// reshare, or what is told.
pub fn receive_undo(store: &mut Store, actor: &str, address: &str, told: Option<ActivityKind>) -> (result:
    Result<InboxResult, InboxError>)
    ensures
        undo_received(old(store)@, actor@, address@, told, final(store)@, result),
        old(store).wf() ==> final(store).wf(),
        old(store)@.addressed() ==> final(store)@.addressed(),
{
    if seeks(told, ActivityKind::Follow) {
        match store.follows.locate(address) {
            Some(at) => {
                if !is_user(store, actor, store.follows.rows[at].follower_id) {
                    return Err(InboxError::Rejected);
                }
                store.follows.rows.remove(at);
                return Ok(InboxResult::Other);
            },
            None => {},
        }
    }
    if seeks(told, ActivityKind::Like) {
        match store.likes.locate(address) {
            Some(at) => {
                if !is_user(store, actor, store.likes.rows[at].user_id) {
                    return Err(InboxError::Rejected);
                }
                store.likes.rows.remove(at);
                return Ok(InboxResult::Other);
            },
            None => {},
        }
    }
    if seeks(told, ActivityKind::Announce) {
        match store.reshares.locate(address) {
            Some(at) => {
                if !is_user(store, actor, store.reshares.rows[at].user_id) {
                    return Err(InboxError::Rejected);
                }
                store.reshares.rows.remove(at);
                return Ok(InboxResult::Other);
            },
            None => {},
        }
    }
    Ok(InboxResult::Other)
}

} // verus!
