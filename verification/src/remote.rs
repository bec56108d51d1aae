//! What an incoming activity needs from other instances: the addresses to
//! fetch before it is applied, and what the documents fetched from them
//! show.

use crate::activity::{ids, optional_text, Activity, LicensedArticle, Note, Object};
use crate::activity_pub::Id;
use crate::blogs::NewBlog;
use crate::json::{json_member, member};
use crate::resolve::{find_fetched, remote_user, Remote};
use crate::store::{Store, StoreView};
use crate::table::{lemma_filter_step, row_at};
use crate::text::{copy_text, join3, same_text, texts};
use crate::users::NewUser;
use crate::wire::{content_of, get_text, read_article, read_note, text_of};
use serde_json::Value;
use vstd::prelude::*;

verus! {

/// The addresses that a note refers to: its author, and what it answers.
pub open spec fn note_refers(author: Seq<char>, answered: Option<Id>) -> Seq<Seq<char>> {
    match answered {
        Some(target) => seq![author, target@],
        None => seq![author],
    }
}

/// The addresses that an activity refers to: its actor, then what its
/// object names. A reference names itself, a note its author and what it
/// answers, an article its authors.
pub open spec fn referred(activity: Activity) -> Seq<Seq<char>> {
    seq![activity.actor@] + match activity.object {
        Object::Link(address) => seq![address@],
        Object::Note(note) => note_refers(note.attributed_to@, note.in_reply_to),
        Object::Article(article) => ids(article.object.attributed_to@),
        Object::Tombstone(_) => Seq::empty(),
        Object::Activity(_) => Seq::empty(),
    }
}

/// The addresses that an activity refers to.
pub fn referred_by(activity: &Activity) -> (addresses: Vec<String>)
    ensures
        texts(addresses@) == referred(*activity),
{
    let mut addresses: Vec<String> = Vec::new();
    addresses.push(copy_text(&activity.actor.0));
    let ghost actor = seq![activity.actor@];
    assert(texts(addresses@) =~= actor);
    match &activity.object {
        Object::Link(address) => {
            addresses.push(copy_text(&address.0));
            assert(texts(addresses@) =~= actor + seq![address@]);
        },
        Object::Note(note) => {
            addresses.push(copy_text(&note.attributed_to.0));
            match &note.in_reply_to {
                Some(target) => {
                    addresses.push(copy_text(&target.0));
                    assert(texts(addresses@) =~= actor + seq![note.attributed_to@, target@]);
                },
                None => {
                    assert(texts(addresses@) =~= actor + seq![note.attributed_to@]);
                },
            }
        },
        Object::Article(article) => {
            let authors = &article.object.attributed_to;
            let mut i: usize = 0;
            assert(texts(addresses@) =~= actor + ids(authors@).take(0));
            while i < authors.len()
                invariant
                    i <= authors@.len(),
                    texts(addresses@) == actor + ids(authors@).take(i as int),
                decreases authors@.len() - i,
            {
                let ghost before = texts(addresses@);
                addresses.push(copy_text(&authors[i].0));
                assert(texts(addresses@) =~= before.push(authors@[i as int]@));
                assert(ids(authors@).take(i + 1) =~= ids(authors@).take(i as int).push(
                    authors@[i as int]@,
                ));
                assert(texts(addresses@) =~= actor + ids(authors@).take(i + 1));
                i += 1;
            }
            assert(ids(authors@).take(authors@.len() as int) =~= ids(authors@));
        },
        Object::Tombstone(_) => {
            assert(texts(addresses@) =~= actor + Seq::<Seq<char>>::empty());
        },
        Object::Activity(_) => {
            assert(texts(addresses@) =~= actor + Seq::<Seq<char>>::empty());
        },
    }
    addresses
}

/// Whether something is stored under an address: a user, a blog, a post or
/// a comment.
pub open spec fn stored(store: StoreView, address: Seq<char>) -> bool {
    ||| row_at(store.users, address) is Some
    ||| row_at(store.blogs, address) is Some
    ||| row_at(store.posts, address) is Some
    ||| row_at(store.comments, address) is Some
}

/// Whether something is stored under an address.
pub fn is_stored(store: &Store, address: &str) -> (yes: bool)
    ensures
        yes == stored(store@, address@),
{
    store.users.find(address).is_some() || store.blogs.find(address).is_some()
        || store.posts.find(address).is_some() || store.comments.find(address).is_some()
}

/// The addresses under which nothing is stored.
pub open spec fn not_stored(store: StoreView) -> spec_fn(Seq<char>) -> bool {
    |address: Seq<char>| !stored(store, address)
}

/// The addresses to fetch before an activity is applied: those that it
/// refers to and under which nothing is stored, in the order in which it
/// refers to them.
pub fn to_fetch(store: &Store, activity: &Activity) -> (addresses: Vec<String>)
    ensures
        texts(addresses@) == referred(*activity).filter(not_stored(store@)),
{
    let all = referred_by(activity);
    let mut addresses: Vec<String> = Vec::new();
    let mut i: usize = 0;
    proof {
        reveal(Seq::filter);
        assert(texts(all@).take(0) =~= Seq::empty());
        assert(texts(addresses@) =~= Seq::empty());
    }
    while i < all.len()
        invariant
            i <= all@.len(),
            texts(addresses@) == texts(all@).take(i as int).filter(not_stored(store@)),
        decreases all@.len() - i,
    {
        let ghost before = texts(addresses@);
        proof {
            lemma_filter_step(texts(all@), not_stored(store@), i as int);
        }
        if !is_stored(store, all[i].as_str()) {
            addresses.push(copy_text(&all[i]));
            assert(texts(addresses@) =~= before.push(all@[i as int]@));
        }
        i += 1;
    }
    assert(texts(all@).take(all@.len() as int) =~= texts(all@));
    addresses
}

/// The text that a document holds under a key of the object that it holds
/// under another.
pub open spec fn nested_text(value: Value, outer: Seq<char>, inner: Seq<char>) -> Option<Seq<char>> {
    match json_member(value, outer) {
        Some(found) => text_of(found, inner),
        None => None,
    }
}

/// The text that a document holds under a key of the object that it holds
/// under another.
pub fn get_nested_text(value: &Value, outer: &str, inner: &str) -> (text: Option<String>)
    ensures
        optional_text(text) == nested_text(*value, outer@, inner@),
{
    match member(value, outer) {
        Some(found) => get_text(&found, inner),
        None => None,
    }
}

/// Whether a document shows an actor: it needs a name, an address, an
/// inbox, the address of the followers, and a public key.
pub open spec fn shows_actor(value: Value) -> bool {
    &&& text_of(value, "preferredUsername"@) is Some
    &&& text_of(value, "id"@) is Some
    &&& text_of(value, "inbox"@) is Some
    &&& text_of(value, "followers"@) is Some
    &&& nested_text(value, "publicKey"@, "publicKeyPem"@) is Some
}

/// Whether a user is the one that a document shows, on an instance with a
/// given identifier and domain: the full name is the name, `@` and the
/// domain.
pub open spec fn actor_shown(value: Value, instance_id: i32, domain: Seq<char>, user: NewUser) -> bool {
    &&& text_of(value, "preferredUsername"@) == Some(user.username@)
    &&& user.fqn@ == user.username@ + "@"@ + domain
    &&& text_of(value, "id"@) == Some(user.ap_url@)
    &&& text_of(value, "inbox"@) == Some(user.inbox_url@)
    &&& nested_text(value, "endpoints"@, "sharedInbox"@) == optional_text(user.shared_inbox_url)
    &&& text_of(value, "followers"@) == Some(user.followers_endpoint@)
    &&& nested_text(value, "publicKey"@, "publicKeyPem"@) == Some(user.public_key@)
    &&& user.instance_id == instance_id
}

/// Read a document as an actor of an instance.
pub fn actor_from_json(value: &Value, instance_id: i32, domain: &str) -> (actor: Option<NewUser>)
    ensures
        actor is Some == shows_actor(*value),
        actor matches Some(user) ==> actor_shown(*value, instance_id, domain@, user),
{
    let username = match get_text(value, "preferredUsername") {
        Some(text) => text,
        None => { return None; },
    };
    let ap_url = match get_text(value, "id") {
        Some(text) => text,
        None => { return None; },
    };
    let inbox_url = match get_text(value, "inbox") {
        Some(text) => text,
        None => { return None; },
    };
    let followers_endpoint = match get_text(value, "followers") {
        Some(text) => text,
        None => { return None; },
    };
    let public_key = match get_nested_text(value, "publicKey", "publicKeyPem") {
        Some(text) => text,
        None => { return None; },
    };
    let fqn = join3(username.as_str(), "@", domain);
    Some(
        NewUser {
            username,
            fqn,
            ap_url,
            inbox_url,
            shared_inbox_url: get_nested_text(value, "endpoints", "sharedInbox"),
            followers_endpoint,
            public_key,
            instance_id,
        },
    )
}

/// Whether a document shows a blog: it needs a name, an address and an
/// inbox.
pub open spec fn shows_blog(value: Value) -> bool {
    &&& text_of(value, "preferredUsername"@) is Some
    &&& text_of(value, "id"@) is Some
    &&& text_of(value, "inbox"@) is Some
}

/// Whether a blog is the one that a document shows, on an instance with a
/// given identifier and domain. A blog without a title has an empty one.
pub open spec fn blog_shown(value: Value, instance_id: i32, domain: Seq<char>, blog: NewBlog) -> bool {
    &&& text_of(value, "preferredUsername"@) == Some(blog.actor_id@)
    &&& blog.title@ == match text_of(value, "name"@) {
        Some(title) => title,
        None => Seq::empty(),
    }
    &&& blog.fqn@ == blog.actor_id@ + "@"@ + domain
    &&& text_of(value, "id"@) == Some(blog.ap_url@)
    &&& text_of(value, "inbox"@) == Some(blog.inbox_url@)
    &&& blog.instance_id == instance_id
}

/// Read a document as a blog of an instance.
pub fn blog_from_json(value: &Value, instance_id: i32, domain: &str) -> (found: Option<NewBlog>)
    ensures
        found is Some == shows_blog(*value),
        found matches Some(blog) ==> blog_shown(*value, instance_id, domain@, blog),
{
    let actor_id = match get_text(value, "preferredUsername") {
        Some(text) => text,
        None => { return None; },
    };
    let ap_url = match get_text(value, "id") {
        Some(text) => text,
        None => { return None; },
    };
    let inbox_url = match get_text(value, "inbox") {
        Some(text) => text,
        None => { return None; },
    };
    let title = match get_text(value, "name") {
        Some(text) => text,
        None => String::new(),
    };
    let fqn = join3(actor_id.as_str(), "@", domain);
    Some(NewBlog { actor_id, title, fqn, ap_url, inbox_url, instance_id })
}

/// Whether something is what a fetched document shows. The type of the
/// document decides what it is read as: a `Person` as an actor, a `Group`
/// as a blog, an `Article` and a `Note` as themselves. A document of
/// another type, or without a type, shows nothing.
pub open spec fn remote_shown(
    value: Value,
    instance_id: i32,
    domain: Seq<char>,
    remote: Option<Remote>,
) -> bool {
    match text_of(value, "type"@) {
        None => remote is None,
        Some(kind) => if kind == "Person"@ {
            match remote {
                Some(Remote::Actor(user)) => actor_shown(value, instance_id, domain, user),
                Some(_) => false,
                None => !shows_actor(value),
            }
        } else if kind == "Group"@ {
            match remote {
                Some(Remote::Blog(blog)) => blog_shown(value, instance_id, domain, blog),
                Some(_) => false,
                None => !shows_blog(value),
            }
        } else if kind == "Article"@ {
            match remote {
                Some(Remote::Article(article)) => read_article(value) == Some(article@),
                Some(_) => false,
                None => read_article(value) is None,
            }
        } else if kind == "Note"@ {
            match remote {
                Some(Remote::Note(note)) => read_note(value) == Some(note@),
                Some(_) => false,
                None => read_note(value) is None,
            }
        } else {
            remote is None
        },
    }
}

/// Read a document that was fetched from an instance with a given
/// identifier and domain.
pub fn remote_from_json(value: &Value, instance_id: i32, domain: &str) -> (remote: Option<Remote>)
    ensures
        remote_shown(*value, instance_id, domain@, remote),
{
    let kind = match get_text(value, "type") {
        Some(kind) => kind,
        None => { return None; },
    };
    if same_text(kind.as_str(), "Person") {
        match actor_from_json(value, instance_id, domain) {
            Some(user) => Some(Remote::Actor(user)),
            None => None,
        }
    } else if same_text(kind.as_str(), "Group") {
        match blog_from_json(value, instance_id, domain) {
            Some(blog) => Some(Remote::Blog(blog)),
            None => None,
        }
    } else if same_text(kind.as_str(), "Article") {
        match LicensedArticle::from_json(value) {
            Some(article) => Some(Remote::Article(article)),
            None => None,
        }
    } else if same_text(kind.as_str(), "Note") {
        match Note::from_json(value) {
            Some(note) => Some(Remote::Note(note)),
            None => None,
        }
    } else {
        None
    }
}

/// The public key of an actor, as far as it is known: that of the stored
/// user, or else that of the actor that was fetched from the address.
pub open spec fn known_key(store: StoreView, fetched: Seq<Remote>, actor: Seq<char>) -> Option<
    Seq<char>,
> {
    match row_at(store.users, actor) {
        Some(user) => Some(user.public_key@),
        None => match remote_user(fetched, actor) {
            Some(user) => Some(user.public_key@),
            None => None,
        },
    }
}

/// The public key of an actor, as far as it is known.
pub fn public_key_of(store: &Store, fetched: &Vec<Remote>, actor: &str) -> (key: Option<String>)
    ensures
        optional_text(key) == known_key(store@, fetched@, actor@),
{
    match store.users.find(actor) {
        Some(user) => { return Some(copy_text(&user.public_key)); },
        None => {},
    }
    match find_fetched(fetched, actor) {
        Some(Remote::Actor(user)) => Some(copy_text(&user.public_key)),
        _ => None,
    }
}

} // verus!
