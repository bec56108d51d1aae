//! The inbox: what an incoming activity does to the local state.
//!
//! An activity is applied in steps. It is rejected unless the request that
//! brought it was verified; what it refers to is resolved, in the store
//! first and among the representations fetched from other instances
//! second; and it is applied once: an activity whose own address is already
//! stored gives back what was stored and changes nothing.

use crate::activity::{ids, Activity, ActivityKind, Note, Object};
use crate::comments::Comment;
use crate::follows::Follow;
use crate::json::{json_parsed, parse};
use crate::likes::Like;
use crate::posts::Post;
use crate::receive::{
    delete_received, follow_received, has_id, like_received, note_received, receive_delete,
    receive_follow, receive_like, receive_note, receive_reshare, receive_undo, receive_update,
    reshare_received, undo_received, update_received,
};
use crate::request::{value_of, verify_http_headers_at, Digest, Headers};
use crate::reshares::Reshare;
use crate::resolve::{
    article_received, lemma_stays_resolved, post_known, post_needs, receive_article, roomy,
    user_known, Remote,
};
use crate::sign::{presented, verify_at, SignatureValidity, Signer};
use crate::store::{Store, StoreView};
use crate::table::{
    grown, lemma_first_index, lemma_place_kept, lemma_row_at_place, place_of, row_at, with_address,
    Addressed, Row,
};
use crate::text::same_text;
use crate::time::{fresh, now, Instant};
use crate::users::User;
use crate::wire::read_activity;
use serde_json::Value;
use vstd::prelude::*;

verus! {

/// What an applied activity left in the store.
#[derive(Clone, Debug, PartialEq, Eq)]
pub enum InboxResult {
    Commented(Comment),
    Followed(Follow),
    Liked(Like),
    /// Nothing that anyone has to be told of.
    Other,
    Post(Post),
    Reshared(Reshare),
}

/// Why an activity was not applied.
#[derive(Debug, Copy, Clone, PartialEq, Eq, Structural)]
pub enum InboxError {
    /// The request or the activity was not verified, or the actor may not
    /// do what the activity says.
    Rejected,
    /// Something that the activity refers to is neither stored nor among
    /// the fetched representations, or is of another kind than needed.
    Resolution,
    /// The store cannot take what the activity brings.
    Persistence,
}

/// An incoming activity, with what the checks of its request found.
#[derive(Clone, Debug, PartialEq, Eq)]
pub struct Inbound {
    /// The outcome of checking the signature of the request.
    pub transport: SignatureValidity,
    /// Whether the signature in the activity was verified against the key
    /// of its actor.
    pub signed: bool,
    pub activity: Activity,
}

/// The activities that are applied on the word of the request alone: those
/// that take something back or away.
pub open spec fn exempt(kind: ActivityKind) -> bool {
    kind == ActivityKind::Delete || kind == ActivityKind::Undo
}

/// Whether an incoming activity passes the checks: the request must be
/// fully verified, and so must the activity unless it is exempt.
pub open spec fn admitted(inbound: Inbound) -> bool {
    inbound.transport == SignatureValidity::Valid && (inbound.signed || exempt(
        inbound.activity.kind,
    ))
}

/// Decide whether an incoming activity passes the checks.
pub fn passes(inbound: &Inbound) -> (yes: bool)
    ensures
        yes == admitted(*inbound),
{
    if !inbound.transport.is_secure() {
        return false;
    }
    if inbound.signed {
        return true;
    }
    match inbound.activity.kind {
        ActivityKind::Delete => true,
        ActivityKind::Undo => true,
        _ => false,
    }
}

impl From<()> for InboxResult {
    fn from(_nothing: ()) -> (result: InboxResult) {
        InboxResult::Other
    }
}

impl vstd::std_specs::convert::FromSpecImpl<()> for InboxResult {
    open spec fn obeys_from_spec() -> bool {
        true
    }

    open spec fn from_spec(_nothing: ()) -> InboxResult {
        InboxResult::Other
    }
}

impl From<Comment> for InboxResult {
    fn from(comment: Comment) -> (result: InboxResult) {
        InboxResult::Commented(comment)
    }
}

impl vstd::std_specs::convert::FromSpecImpl<Comment> for InboxResult {
    open spec fn obeys_from_spec() -> bool {
        true
    }

    open spec fn from_spec(comment: Comment) -> InboxResult {
        InboxResult::Commented(comment)
    }
}

impl From<Follow> for InboxResult {
    fn from(follow: Follow) -> (result: InboxResult) {
        InboxResult::Followed(follow)
    }
}

impl vstd::std_specs::convert::FromSpecImpl<Follow> for InboxResult {
    open spec fn obeys_from_spec() -> bool {
        true
    }

    open spec fn from_spec(follow: Follow) -> InboxResult {
        InboxResult::Followed(follow)
    }
}

impl From<Like> for InboxResult {
    fn from(like: Like) -> (result: InboxResult) {
        InboxResult::Liked(like)
    }
}

impl vstd::std_specs::convert::FromSpecImpl<Like> for InboxResult {
    open spec fn obeys_from_spec() -> bool {
        true
    }

    open spec fn from_spec(like: Like) -> InboxResult {
        InboxResult::Liked(like)
    }
}

impl From<Post> for InboxResult {
    fn from(post: Post) -> (result: InboxResult) {
        InboxResult::Post(post)
    }
}

impl vstd::std_specs::convert::FromSpecImpl<Post> for InboxResult {
    open spec fn obeys_from_spec() -> bool {
        true
    }

    open spec fn from_spec(post: Post) -> InboxResult {
        InboxResult::Post(post)
    }
}

impl From<Reshare> for InboxResult {
    fn from(reshare: Reshare) -> (result: InboxResult) {
        InboxResult::Reshared(reshare)
    }
}

impl vstd::std_specs::convert::FromSpecImpl<Reshare> for InboxResult {
    open spec fn obeys_from_spec() -> bool {
        true
    }

    open spec fn from_spec(reshare: Reshare) -> InboxResult {
        InboxResult::Reshared(reshare)
    }
}

/// What applying an incoming activity does to the store, and what it gives
/// back. An activity that does not pass the checks is rejected. Of the
/// others, each kind is applied in its own way; an activity that says
/// something of an object that its kind does not take changes nothing. The
/// author of a note, and one of those an article is attributed to, must be
/// the actor.
pub open spec fn received(
    before: StoreView,
    fetched: Seq<Remote>,
    inbound: Inbound,
    after: StoreView,
    result: Result<InboxResult, InboxError>,
) -> bool {
    let activity = inbound.activity;
    let nothing = result == Ok::<InboxResult, InboxError>(InboxResult::Other) && after == before;
    let rejected = result == Err::<InboxResult, InboxError>(InboxError::Rejected) && after
        == before;
    if !admitted(inbound) {
        rejected
    } else {
        match activity.kind {
            ActivityKind::Follow => follow_received(before, fetched, activity, after, result),
            ActivityKind::Like => like_received(before, fetched, activity, after, result),
            ActivityKind::Announce => reshare_received(before, fetched, activity, after, result),
            ActivityKind::Create => match activity.object {
                Object::Note(note) => if note.attributed_to@ != activity.actor@ {
                    rejected
                } else {
                    note_received(before, fetched, note, after, result)
                },
                Object::Article(article) => if !ids(article.object.attributed_to@).contains(
                    activity.actor@,
                ) {
                    rejected
                } else {
                    match result {
                        Ok(InboxResult::Post(post)) => article_received(
                            before,
                            fetched,
                            article,
                            after,
                            Ok::<Post, InboxError>(post),
                        ),
                        Ok(_) => false,
                        Err(error) => article_received(
                            before,
                            fetched,
                            article,
                            after,
                            Err::<Post, InboxError>(error),
                        ),
                    }
                },
                _ => nothing,
            },
            ActivityKind::Update => match activity.object {
                Object::Article(article) => update_received(
                    before,
                    activity.actor@,
                    article,
                    after,
                    result,
                ),
                _ => nothing,
            },
            ActivityKind::Delete => match activity.object {
                Object::Tombstone(address) => delete_received(
                    before,
                    activity.actor@,
                    address@,
                    after,
                    result,
                ),
                Object::Link(address) => delete_received(
                    before,
                    activity.actor@,
                    address@,
                    after,
                    result,
                ),
                _ => nothing,
            },
            ActivityKind::Undo => match activity.object {
                Object::Link(address) => undo_received(
                    before,
                    activity.actor@,
                    address@,
                    None,
                    after,
                    result,
                ),
                Object::Activity(inner) => undo_received(
                    before,
                    activity.actor@,
                    inner.id@,
                    Some(inner.kind),
                    after,
                    result,
                ),
                _ => nothing,
            },
        }
    }
}

/// Apply an incoming activity to the store. `fetched` holds what was
/// fetched from other instances for the addresses that the activity refers
/// to; the store is looked up first.
pub fn inbox(store: &mut Store, fetched: &Vec<Remote>, inbound: &Inbound) -> (result: Result<
    InboxResult,
    InboxError,
>)
    ensures
        received(old(store)@, fetched@, *inbound, final(store)@, result),
        old(store).wf() ==> final(store).wf(),
        old(store)@.addressed() ==> final(store)@.addressed(),
{
    if !passes(inbound) {
        return Err(InboxError::Rejected);
    }
    let activity = &inbound.activity;
    let actor = activity.actor.as_str();
    match activity.kind {
        ActivityKind::Follow => receive_follow(store, fetched, activity),
        ActivityKind::Like => receive_like(store, fetched, activity),
        ActivityKind::Announce => receive_reshare(store, fetched, activity),
        ActivityKind::Create => match &activity.object {
            Object::Note(note) => {
                if !same_text(note.attributed_to.as_str(), actor) {
                    return Err(InboxError::Rejected);
                }
                receive_note(store, fetched, note)
            },
            Object::Article(article) => {
                if !has_id(&article.object.attributed_to, actor) {
                    return Err(InboxError::Rejected);
                }
                match receive_article(store, fetched, article) {
                    Ok(post) => Ok(InboxResult::Post(post)),
                    Err(error) => Err(error),
                }
            },
            _ => Ok(InboxResult::Other),
        },
        ActivityKind::Update => match &activity.object {
            Object::Article(article) => receive_update(store, actor, article),
            _ => Ok(InboxResult::Other),
        },
        ActivityKind::Delete => match &activity.object {
            Object::Tombstone(address) => receive_delete(store, actor, address.as_str()),
            Object::Link(address) => receive_delete(store, actor, address.as_str()),
            _ => Ok(InboxResult::Other),
        },
        ActivityKind::Undo => match &activity.object {
            Object::Link(address) => receive_undo(store, actor, address.as_str(), None),
            Object::Activity(inner) => receive_undo(
                store,
                actor,
                inner.id.as_str(),
                Some(inner.kind),
            ),
            _ => Ok(InboxResult::Other),
        },
    }
}

/// An activity is applied once. Where applying an activity left something
/// in the store, applying the same activity to the store as it then is
/// gives back the same and changes nothing, whatever is fetched the second
/// time.
pub proof fn lemma_applied_once(
    start: StoreView,
    fetched: Seq<Remote>,
    inbound: Inbound,
    first: StoreView,
    first_result: Result<InboxResult, InboxError>,
    fetched_again: Seq<Remote>,
    second: StoreView,
    second_result: Result<InboxResult, InboxError>,
)
    requires
        received(start, fetched, inbound, first, first_result),
        received(first, fetched_again, inbound, second, second_result),
        first_result is Ok,
        first_result != Ok::<InboxResult, InboxError>(InboxResult::Other),
    ensures
        second_result == first_result,
        second == first,
{
    let activity = inbound.activity;
    match activity.kind {
        ActivityKind::Update => {
            if let Object::Article(article) = activity.object {
                let url = article.object.id@;
                let at = place_of(start.posts, url).unwrap();
                let post = first_result->Ok_0->Post_0;
                lemma_first_index(start.posts.rows, with_address(url));
                lemma_place_kept(start.posts, url, at, post);
                let again = second_result->Ok_0->Post_0;
                assert(first.posts.rows[at] == post);
                assert(again == post);
                assert(first.posts.rows.update(at, again) =~= first.posts.rows);
            }
        },
        _ => {},
    }
}

/// A follow whose actor cannot be resolved fails, and the failure to
/// resolve is what is returned; the store is left as it was: no follow is
/// stored, and no user.
pub proof fn lemma_unresolved_follow(
    before: StoreView,
    fetched: Seq<Remote>,
    inbound: Inbound,
    after: StoreView,
    result: Result<InboxResult, InboxError>,
)
    requires
        received(before, fetched, inbound, after, result),
        admitted(inbound),
        inbound.activity.kind == ActivityKind::Follow,
        !user_known(before, fetched, inbound.activity.actor@),
    ensures
        result == Err::<InboxResult, InboxError>(InboxError::Resolution),
        after == before,
{
}

/// Taking back what is not stored does nothing, and is no failure: so for
/// a like, a follow or a reshare that is taken back and is not stored, and
/// for an address under which none of the three is stored.
pub proof fn lemma_undo_of_nothing(
    before: StoreView,
    fetched: Seq<Remote>,
    inbound: Inbound,
    after: StoreView,
    result: Result<InboxResult, InboxError>,
)
    requires
        received(before, fetched, inbound, after, result),
        admitted(inbound),
        inbound.activity.kind == ActivityKind::Undo,
        match inbound.activity.object {
            Object::Link(address) => row_at(before.follows, address@) is None && row_at(
                before.likes,
                address@,
            ) is None && row_at(before.reshares, address@) is None,
            Object::Activity(inner) => match inner.kind {
                ActivityKind::Follow => row_at(before.follows, inner.id@) is None,
                ActivityKind::Like => row_at(before.likes, inner.id@) is None,
                ActivityKind::Announce => row_at(before.reshares, inner.id@) is None,
                _ => true,
            },
            _ => true,
        },
    ensures
        result == Ok::<InboxResult, InboxError>(InboxResult::Other),
        after == before,
{
    match inbound.activity.object {
        Object::Link(address) => {
            lemma_row_at_place(before.follows, address@);
            lemma_row_at_place(before.likes, address@);
            lemma_row_at_place(before.reshares, address@);
        },
        Object::Activity(inner) => {
            lemma_row_at_place(before.follows, inner.id@);
            lemma_row_at_place(before.likes, inner.id@);
            lemma_row_at_place(before.reshares, inner.id@);
        },
        _ => {},
    }
}

/// A like of a stored post by a stored user, not applied before, is stored
/// with the identifiers of the two and the address of the activity, unless
/// the identifiers of likes have run out: one like more, and nothing else
/// changes.
pub proof fn lemma_like_is_stored(
    before: StoreView,
    fetched: Seq<Remote>,
    inbound: Inbound,
    user: User,
    post: Post,
    after: StoreView,
    result: Result<InboxResult, InboxError>,
)
    requires
        received(before, fetched, inbound, after, result),
        admitted(inbound),
        inbound.activity.kind == ActivityKind::Like,
        inbound.activity.object matches Object::Link(target) && row_at(before.posts, target@)
            == Some(post),
        row_at(before.users, inbound.activity.actor@) == Some(user),
        row_at(before.likes, inbound.activity.id@) is None,
        before.likes.next_id < i32::MAX,
    ensures
        result matches Ok(InboxResult::Liked(like)) && like == (Like {
            id: before.likes.next_id,
            user_id: user.id,
            post_id: post.id,
            creation_date: before.now,
            ap_url: inbound.activity.id,
        }) && after == (StoreView { likes: grown(before.likes, like), ..before }),
{
    let activity = inbound.activity;
    let target = activity.object->Link_0;
    assert(user_known(before, fetched, activity.actor@));
    assert(post_known(before, fetched, target@));
    assert(like_received(before, fetched, activity, after, result));
}

/// An activity that does not pass the checks changes nothing.
pub proof fn lemma_unverified_is_rejected(
    before: StoreView,
    fetched: Seq<Remote>,
    inbound: Inbound,
    after: StoreView,
    result: Result<InboxResult, InboxError>,
)
    requires
        received(before, fetched, inbound, after, result),
        inbound.transport != SignatureValidity::Valid || (!inbound.signed && !exempt(
            inbound.activity.kind,
        )),
    ensures
        result == Err::<InboxResult, InboxError>(InboxError::Rejected),
        after == before,
{
}

/// Whether an incoming activity is what a request brought: the request was
/// fully verified, the activity is what the document says, and it counts as
/// signed only if the document presents a signature that is fresh.
pub open spec fn brought(inbound: Inbound, document: Value, now: Instant) -> bool {
    &&& inbound.transport == SignatureValidity::Valid
    &&& Some(inbound.activity@) == read_activity(document)
    &&& inbound.signed ==> presented(document) is Some && fresh(
        presented(document).unwrap().created,
        now,
    )
}

/// What handling a request does. A body that is no JSON, and a request
/// whose signature is not fully verified, are rejected; a document that is
/// no activity of a kind known here changes nothing; any other is applied
/// as the activity that it says.
pub open spec fn handled(
    before: StoreView,
    fetched: Seq<Remote>,
    headers: Seq<(Seq<char>, Seq<char>)>,
    body: Seq<char>,
    now: Instant,
    after: StoreView,
    result: Result<InboxResult, InboxError>,
) -> bool {
    let rejected = result == Err::<InboxResult, InboxError>(InboxError::Rejected) && after
        == before;
    match json_parsed(body) {
        None => rejected,
        Some(document) => {
            ||| rejected
            ||| value_of(headers, "signature"@) is Some && read_activity(document) is None
                && result == Ok::<InboxResult, InboxError>(InboxResult::Other) && after == before
            ||| value_of(headers, "signature"@) is Some && exists|inbound: Inbound|
                brought(inbound, document, now) && #[trigger] received(
                    before,
                    fetched,
                    inbound,
                    after,
                    result,
                )
        },
    }
}

/// Handle a request that brings an activity, at a given time: check the
/// signature of the request and that of the document against the key of
/// the sender, read the document, and apply the activity. `sender` checks
/// signatures with the key of the actor that the request claims.
pub fn process_at<S: Signer>(
    store: &mut Store,
    fetched: &Vec<Remote>,
    sender: &S,
    headers: &Headers,
    body: &str,
    now: Instant,
) -> (result: Result<InboxResult, InboxError>)
    ensures
        handled(old(store)@, fetched@, headers@, body@, now, final(store)@, result),
        old(store).wf() ==> final(store).wf(),
        old(store)@.addressed() ==> final(store)@.addressed(),
{
    let document = match parse(body) {
        Some(document) => document,
        None => { return Err(InboxError::Rejected); },
    };
    let digest = Digest::from_body(body);
    let transport = verify_http_headers_at(sender, headers, &digest, now);
    if !transport.is_secure() {
        return Err(InboxError::Rejected);
    }
    let activity = match Activity::from_json(&document) {
        Some(activity) => activity,
        None => { return Ok(InboxResult::Other); },
    };
    let signed = verify_at(document, sender, now);
    let inbound = Inbound { transport, signed, activity };
    let result = inbox(store, fetched, &inbound);
    assert(brought(inbound, document, now));
    result
}

/// Handle a request that brings an activity, now.
pub fn process<S: Signer>(
    store: &mut Store,
    fetched: &Vec<Remote>,
    sender: &S,
    headers: &Headers,
    body: &str,
) -> (result: Result<InboxResult, InboxError>)
    ensures
        exists|now: Instant|
            handled(old(store)@, fetched@, headers@, body@, now, final(store)@, result),
        old(store).wf() ==> final(store).wf(),
        old(store)@.addressed() ==> final(store)@.addressed(),
{
    process_at(store, fetched, sender, headers, body, now())
}

} // verus!
