//! The vocabulary shared by everything that is federated: identifiers, the
//! JSON-LD context, media types and the small objects that ride along with
//! activities.

use crate::json::{
    array_value, json_array, json_object, json_string, object_of, pair_views, string_value,
};
use crate::text::copy_text;
use serde_json::Value;
use vstd::prelude::*;

verus! {

/// The context of ActivityStreams documents.
pub const CONTEXT_URL: &'static str = "https://www.w3.org/ns/activitystreams";

/// The pseudo-identifier that addresses everyone.
pub const PUBLIC_VISIBILITY: &'static str = "https://www.w3.org/ns/activitystreams#Public";

/// The media type of the documents that are sent.
pub const AP_CONTENT_TYPE: &'static str =
    "application/ld+json; profile=\"https://www.w3.org/ns/activitystreams\"";

/// The media types that are accepted when a remote object is fetched, the
/// preferred one first.
pub fn ap_accept_header() -> (types: Vec<&'static str>)
    ensures
        types@ == seq![
            "application/ld+json; profile=\"https://w3.org/ns/activitystreams\"",
            "application/ld+json;profile=\"https://w3.org/ns/activitystreams\"",
            "application/activity+json",
            "application/ld+json",
        ],
{
    let mut types: Vec<&'static str> = Vec::new();
    types.push("application/ld+json; profile=\"https://w3.org/ns/activitystreams\"");
    types.push("application/ld+json;profile=\"https://w3.org/ns/activitystreams\"");
    types.push("application/activity+json");
    types.push("application/ld+json");
    types
}

/// The security vocabulary named in the context.
pub const SECURITY_CONTEXT_URL: &'static str = "https://w3id.org/security/v1";

/// A key with a JSON string as its member.
pub open spec fn term(key: Seq<char>, meaning: Seq<char>) -> (Seq<char>, Value) {
    (key, json_string(meaning))
}

/// The terms that the context defines beside the two vocabularies.
pub open spec fn context_terms() -> Seq<(Seq<char>, Value)> {
    seq![
        term("manuallyApprovesFollowers"@, "as:manuallyApprovesFollowers"@),
        term("sensitive"@, "as:sensitive"@),
        term("movedTo"@, "as:movedTo"@),
        term("Hashtag"@, "as:Hashtag"@),
        term("ostatus"@, "http://ostatus.org#"@),
        term("atomUri"@, "ostatus:atomUri"@),
        term("inReplyToAtomUri"@, "ostatus:inReplyToAtomUri"@),
        term("conversation"@, "ostatus:conversation"@),
        term("toot"@, "http://joinmastodon.org/ns#"@),
        term("Emoji"@, "toot:Emoji"@),
        (
            "focalPoint"@,
            json_object(seq![term("@container"@, "@list"@), term("@id"@, "toot:focalPoint"@)]),
        ),
        term("featured"@, "toot:featured"@),
    ]
}

/// The JSON-LD context: the two vocabularies, then the object of terms.
pub open spec fn context_value() -> Value {
    json_array(
        seq![
            json_string(CONTEXT_URL@),
            json_string(SECURITY_CONTEXT_URL@),
            json_object(context_terms()),
        ],
    )
}

fn entry(key: &str, meaning: &str) -> (pair: (String, Value))
    ensures
        (pair.0@, pair.1) == term(key@, meaning@),
{
    (String::from_str(key), string_value(meaning))
}

/// The JSON-LD context that is attached to every activity sent.
pub fn context() -> (value: Value)
    ensures
        value == context_value(),
{
    let mut focal: Vec<(String, Value)> = Vec::new();
    focal.push(entry("@container", "@list"));
    focal.push(entry("@id", "toot:focalPoint"));
    assert(pair_views(focal@) =~= seq![
        term("@container"@, "@list"@),
        term("@id"@, "toot:focalPoint"@),
    ]);
    let mut terms: Vec<(String, Value)> = Vec::new();
    terms.push(entry("manuallyApprovesFollowers", "as:manuallyApprovesFollowers"));
    terms.push(entry("sensitive", "as:sensitive"));
    terms.push(entry("movedTo", "as:movedTo"));
    terms.push(entry("Hashtag", "as:Hashtag"));
    terms.push(entry("ostatus", "http://ostatus.org#"));
    terms.push(entry("atomUri", "ostatus:atomUri"));
    terms.push(entry("inReplyToAtomUri", "ostatus:inReplyToAtomUri"));
    terms.push(entry("conversation", "ostatus:conversation"));
    terms.push(entry("toot", "http://joinmastodon.org/ns#"));
    terms.push(entry("Emoji", "toot:Emoji"));
    terms.push((String::from_str("focalPoint"), object_of(focal)));
    terms.push(entry("featured", "toot:featured"));
    assert(pair_views(terms@) =~= context_terms());
    let mut parts: Vec<Value> = Vec::new();
    parts.push(string_value(CONTEXT_URL));
    parts.push(string_value(SECURITY_CONTEXT_URL));
    parts.push(object_of(terms));
    assert(parts@ =~= seq![
        json_string(CONTEXT_URL@),
        json_string(SECURITY_CONTEXT_URL@),
        json_object(context_terms()),
    ]);
    array_value(parts)
}

/// A response body that is an ActivityStreams document.
pub struct ActivityStream<T>(pub T);

impl<T> ActivityStream<T> {
    pub fn new(t: T) -> (stream: ActivityStream<T>)
        ensures
            stream.0 == t,
    {
        ActivityStream(t)
    }
}

/// The identifier of a federated entity: an absolute URI, compared letter by
/// letter.
#[derive(Clone, Debug, PartialEq, Eq)]
pub struct Id(pub String);

impl View for Id {
    type V = Seq<char>;

    open spec fn view(&self) -> Seq<char> {
        self.0@
    }
}

impl Id {
    pub fn new(id: String) -> (made: Id)
        ensures
            made.0 == id,
            made@ == id@,
    {
        Id(id)
    }

    /// The identifier as text.
    pub fn as_str(&self) -> (text: &str)
        ensures
            text@ == self@,
    {
        self.0.as_str()
    }

    /// A copy of the identifier.
    pub fn copy(&self) -> (copy: Id)
        ensures
            copy == *self,
    {
        Id(copy_text(&self.0))
    }
}

/// What has an identifier of its own.
pub trait IntoId {
    fn into_id(self) -> Id;
}

/// The public key published with an actor.
#[derive(Clone, Debug, Default, PartialEq, Eq)]
pub struct PublicKey {
    pub id: Option<String>,
    pub owner: Option<String>,
    pub public_key_pem: Option<String>,
}

/// The part of an actor's document that holds its key.
#[derive(Clone, Debug, Default, PartialEq, Eq)]
pub struct ApSignature {
    pub public_key: Option<PublicKey>,
}

/// The type of a hashtag: always `Hashtag`.
#[derive(Clone, Copy, Debug, Default, PartialEq, Eq)]
pub struct HashtagType;

/// A tag of a post, as it is written into an article.
#[derive(Clone, Debug, Default, PartialEq, Eq)]
pub struct Hashtag {
    pub kind: HashtagType,
    pub href: Option<String>,
    pub name: Option<String>,
}

/// The source that an article was rendered from.
#[derive(Clone, Debug, Default, PartialEq, Eq)]
pub struct Source {
    pub media_type: String,
    pub content: String,
}

/// The license of an article.
#[derive(Clone, Debug, Default, PartialEq, Eq)]
pub struct Licensed {
    pub license: Option<String>,
}

} // verus!
