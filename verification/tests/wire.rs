use openssl::hash::MessageDigest;
use openssl::pkey::{PKey, Private};
use plume_federation::activity::{
    Activity, ActivityKind, Article, Embedded, Image, LicensedArticle, Note, Object, TagLink,
};
use plume_federation::activity_pub::{Id, Licensed, Source, PUBLIC_VISIBILITY};
use plume_federation::blogs::Blog;
use plume_federation::broadcast::prepare;
use plume_federation::inbox::{inbox, process, process_at, Inbound, InboxError, InboxResult};
use plume_federation::resolve::Remote;
use plume_federation::keys::gen_keypair;
use plume_federation::likes::{Like, NewLike};
use plume_federation::post_authors::PostAuthor;
use plume_federation::posts::Post;
use plume_federation::request::{verify_http_headers_at, Digest};
use plume_federation::sign::{verify_at, SignatureValidity, Signer};
use plume_federation::store::Store;
use plume_federation::time::Instant;
use plume_federation::users::{NewUser, User};
use plume_federation::wire::{kind_of, name_of, tag_from_json, tag_to_json, tombstone_to_json};
use serde_json::Value;

struct Actor {
    id: String,
    key: PKey<Private>,
}

impl Actor {
    fn new(id: &str) -> Actor {
        let (_public, private) = gen_keypair().unwrap();
        Actor { id: id.to_string(), key: PKey::private_key_from_pem(&private).unwrap() }
    }
}

impl Signer for Actor {
    type Error = openssl::error::ErrorStack;

    fn get_key_id(&self) -> String {
        format!("{}#main-key", self.id)
    }

    fn sign(&self, to_sign: &str) -> Result<Vec<u8>, Self::Error> {
        let mut signer = openssl::sign::Signer::new(MessageDigest::sha256(), &self.key)?;
        signer.update(to_sign.as_bytes())?;
        signer.sign_to_vec()
    }

    fn verify(&self, data: &str, signature: &[u8]) -> Result<bool, Self::Error> {
        let mut verifier = openssl::sign::Verifier::new(MessageDigest::sha256(), &self.key)?;
        verifier.update(data.as_bytes())?;
        verifier.verify(signature)
    }
}

fn id(text: &str) -> Id {
    Id(text.to_string())
}

fn parse(text: &str) -> Value {
    serde_json::from_str(text).unwrap()
}

fn article() -> LicensedArticle {
    LicensedArticle {
        object: Article {
            id: "https://plu.me/~/Blog/my-article".to_string(),
            name: "My Article".to_string(),
            attributed_to: vec![id("https://plu.me/@/Admin"), id("https://plu.me/~/Blog")],
            content: "Hello.".to_string(),
            source: Source { media_type: "text/markdown".to_string(), content: "Hello.".to_string() },
            published: 1418386332,
            summary: "Bye.".to_string(),
            tag: vec![
                Some(TagLink::Mention { href: "https://plu.me/@/Bob".to_string(), name: "@Bob".to_string() }),
                None,
                Some(TagLink::Hashtag { href: "https://plu.me/tag/x".to_string(), name: "x".to_string() }),
            ],
            icon: Some(Image {
                url: "https://plu.me/static/cover.png".to_string(),
                summary: None,
                content: "Cover".to_string(),
                attributed_to: vec![id("https://plu.me/@/Admin")],
            }),
            url: "https://plu.me/~/Blog/my-article".to_string(),
            to: vec![id(PUBLIC_VISIBILITY)],
            cc: vec![id("https://plu.me/@/Admin/followers")],
        },
        custom_props: Licensed { license: Some("WTFPL".to_string()) },
    }
}

#[test]
fn licensed_article_serde() {
    let mut article = article();
    article.object.id = "Yo".to_string();
    let json = article.to_json();
    let article_from_json = LicensedArticle::from_json(&json).unwrap();
    assert_eq!("Yo", &article_from_json.object.id);
    assert_eq!("WTFPL", &article_from_json.custom_props.license.clone().unwrap());
    assert_eq!(article_from_json, article);
}

#[test]
fn licensed_article_deserialization() {
    let json = parse(
        r#"{
            "type": "Article",
            "id": "https://plu.me/~/Blog/my-article",
            "attributedTo": ["https://plu.me/@/Admin", "https://plu.me/~/Blog"],
            "content": "Hello.",
            "name": "My Article",
            "summary": "Bye.",
            "source": {
                "content": "Hello.",
                "mediaType": "text/markdown"
            },
            "published": "2014-12-12T12:12:12Z",
            "to": ["https://www.w3.org/ns/activitystreams#Public"]
        }"#,
    );
    let article = LicensedArticle::from_json(&json).unwrap();
    assert_eq!("https://plu.me/~/Blog/my-article", &article.object.id);
    assert_eq!(article.object.attributed_to, vec![id("https://plu.me/@/Admin"), id("https://plu.me/~/Blog")]);
    assert_eq!(article.object.content, "Hello.");
    assert_eq!(article.object.name, "My Article");
    assert_eq!(article.object.summary, "Bye.");
    assert_eq!(article.object.source, Source { media_type: "text/markdown".to_string(), content: "Hello.".to_string() });
    assert_eq!(article.object.published, 1418386332);
    assert_eq!(article.object.to, vec![id(PUBLIC_VISIBILITY)]);
    assert_eq!(article.object.cc, vec![]);
    assert_eq!(article.object.tag, vec![]);
    assert_eq!(article.object.icon, None);
    assert_eq!(article.object.url, "https://plu.me/~/Blog/my-article");
    assert_eq!(article.custom_props.license, None);
}

#[test]
fn an_article_is_written_member_by_member() {
    let expected = parse(
        r#"{
            "type": "Article",
            "id": "https://plu.me/~/Blog/my-article",
            "name": "My Article",
            "attributedTo": ["https://plu.me/@/Admin", "https://plu.me/~/Blog"],
            "content": "Hello.",
            "source": {"content": "Hello.", "mediaType": "text/markdown"},
            "published": "2014-12-12T12:12:12+00:00",
            "summary": "Bye.",
            "tag": [
                {"type": "Mention", "href": "https://plu.me/@/Bob", "name": "@Bob"},
                null,
                {"type": "Hashtag", "href": "https://plu.me/tag/x", "name": "x"}
            ],
            "icon": {
                "type": "Image",
                "url": "https://plu.me/static/cover.png",
                "summary": null,
                "content": "Cover",
                "attributedTo": ["https://plu.me/@/Admin"]
            },
            "url": "https://plu.me/~/Blog/my-article",
            "to": ["https://www.w3.org/ns/activitystreams#Public"],
            "cc": ["https://plu.me/@/Admin/followers"],
            "license": "WTFPL"
        }"#,
    );
    assert_eq!(article().to_json(), expected);
    let mut plain = article();
    plain.object.icon = None;
    plain.custom_props.license = None;
    plain.object.published = i64::MAX;
    let json = plain.to_json();
    assert_eq!(json["icon"], Value::Null);
    assert_eq!(json["license"], Value::Null);
    assert_eq!(json["published"], Value::Null);
    let back = LicensedArticle::from_json(&json).unwrap();
    assert_eq!(back.object.published, 0);
    assert_eq!(back.object.icon, None);
}

#[test]
fn activities_come_back_as_they_were_written() {
    let like = Activity {
        kind: ActivityKind::Like,
        id: "https://a.example/like/1".to_string(),
        actor: id("https://a.example/@/alice"),
        object: Object::Link(id("https://b.example/~/blog/post")),
        to: vec![id(PUBLIC_VISIBILITY)],
        cc: vec![id("https://a.example/@/alice/followers"), id("https://c.example/x")],
    };
    assert_eq!(
        like.to_json(),
        parse(
            r#"{"type":"Like","id":"https://a.example/like/1","actor":"https://a.example/@/alice","object":"https://b.example/~/blog/post","to":["https://www.w3.org/ns/activitystreams#Public"],"cc":["https://a.example/@/alice/followers","https://c.example/x"]}"#
        )
    );
    let undo = Activity {
        kind: ActivityKind::Undo,
        id: "https://a.example/like/1#delete".to_string(),
        actor: id("https://a.example/@/alice"),
        object: Object::Activity(like.clone().embedded().unwrap()),
        to: vec![id(PUBLIC_VISIBILITY)],
        cc: vec![],
    };
    let delete = Activity {
        kind: ActivityKind::Delete,
        id: "d".to_string(),
        actor: id("a"),
        object: Object::Tombstone(id("https://a.example/post")),
        to: vec![],
        cc: vec![],
    };
    let note = Note {
        id: "https://a.example/comment/1".to_string(),
        content: "<p>Hi</p>".to_string(),
        in_reply_to: Some(id("https://b.example/~/blog/post")),
        attributed_to: id("https://a.example/@/alice"),
        summary: "cw".to_string(),
        sensitive: true,
        to: vec![id(PUBLIC_VISIBILITY)],
        cc: vec![],
    };
    let comment = Activity {
        kind: ActivityKind::Create,
        id: "c".to_string(),
        actor: id("https://a.example/@/alice"),
        object: Object::Note(note.clone()),
        to: vec![id(PUBLIC_VISIBILITY)],
        cc: vec![],
    };
    let mut top = note.clone();
    top.in_reply_to = None;
    top.sensitive = false;
    let post = Activity {
        kind: ActivityKind::Update,
        id: "u".to_string(),
        actor: id("https://plu.me/@/Admin"),
        object: Object::Article(article()),
        to: vec![],
        cc: vec![],
    };
    for activity in [like, undo, delete, comment, post] {
        assert_eq!(Activity::from_json(&activity.to_json()), Some(activity));
    }
    assert_eq!(Note::from_json(&top.to_json()), Some(top));
    assert_eq!(note.to_json()["sensitive"], Value::Bool(true));
    assert_eq!(note.to_json()["inReplyTo"], Value::String("https://b.example/~/blog/post".to_string()));
    assert_eq!(tombstone_to_json(&id("t")), parse(r#"{"type":"Tombstone","id":"t"}"#));
    for kind in [
        ActivityKind::Create,
        ActivityKind::Update,
        ActivityKind::Delete,
        ActivityKind::Follow,
        ActivityKind::Undo,
        ActivityKind::Like,
        ActivityKind::Announce,
    ] {
        assert_eq!(kind_of(name_of(kind)), Some(kind));
    }
    assert_eq!(kind_of("Accept"), None);
    assert_eq!(kind_of("like"), None);
    assert_eq!(name_of(ActivityKind::Announce), "Announce");
}

#[test]
fn documents_are_read_leniently_but_need_what_identifies() {
    let read = |text: &str| Activity::from_json(&parse(text));
    assert_eq!(read(r#"{"type":"Like","id":"l","actor":"a"}"#), None);
    assert_eq!(read(r#"{"type":"Like","actor":"a","object":"o"}"#), None);
    assert_eq!(read(r#"{"type":"Like","id":"l","object":"o"}"#), None);
    assert_eq!(read(r#"{"type":"Accept","id":"l","actor":"a","object":"o"}"#), None);
    assert_eq!(read(r#"{"id":"l","actor":"a","object":"o"}"#), None);
    assert_eq!(read(r#"["Like"]"#), None);
    assert_eq!(read(r#"{"type":"Like","id":"l","actor":"a","object":{"type":"Article"}}"#), None);
    assert_eq!(read(r#"{"type":"Like","id":"l","actor":"a","object":7}"#), None);
    let lenient = read(
        r#"{"type":"Like","id":"l","actor":{"type":"Person","id":"a"},"object":{"type":"Video","id":"v"},"to":"one","cc":["x",{"id":"y"},3,{"name":"z"}]}"#,
    )
    .unwrap();
    assert_eq!(lenient.actor, id("a"));
    assert_eq!(lenient.object, Object::Link(id("v")));
    assert_eq!(lenient.to, vec![id("one")]);
    assert_eq!(lenient.cc, vec![id("x"), id("y")]);
    assert_eq!(read(r#"{"type":"Delete","id":"d","actor":"a","object":{"id":"gone"}}"#).unwrap().object, Object::Link(id("gone")));
    assert_eq!(
        read(r#"{"type":"Delete","id":"d","actor":"a","object":{"type":"Tombstone","id":"gone"}}"#).unwrap().object,
        Object::Tombstone(id("gone"))
    );
    assert_eq!(read(r#"{"type":"Delete","id":"d","actor":"a","object":{"type":"Tombstone"}}"#), None);
    assert_eq!(
        read(r#"{"type":"Undo","id":"u","actor":"a","object":{"type":"Follow","id":"f","actor":"a","object":"b"}}"#).unwrap().object,
        Object::Activity(Embedded { kind: ActivityKind::Follow, id: "f".to_string(), actor: id("a"), object: id("b"), to: vec![], cc: vec![] })
    );
    assert_eq!(read(r#"{"type":"Undo","id":"u","actor":"a","object":{"type":"Follow","id":"f","actor":"a"}}"#), None);
    assert_eq!(Note::from_json(&parse(r#"{"id":"n"}"#)), None);
    assert_eq!(Note::from_json(&parse(r#"{"attributedTo":"a"}"#)), None);
    let note = Note::from_json(&parse(r#"{"id":"n","attributedTo":["a","b"],"sensitive":"yes","inReplyTo":{"id":"p"}}"#)).unwrap();
    assert_eq!(note.attributed_to, id("a"));
    assert!(!note.sensitive);
    assert_eq!(note.in_reply_to, Some(id("p")));
    assert_eq!(note.content, "");
    assert_eq!(Image::from_json(&parse(r#"{"content":"c"}"#)), None);
    assert_eq!(tag_from_json(&parse(r#"{"type":"Emoji","name":"e"}"#)), None);
    assert_eq!(tag_from_json(&parse("null")), None);
    assert_eq!(
        tag_from_json(&parse(r#"{"type":"Hashtag","name":"e"}"#)),
        Some(TagLink::Hashtag { href: String::new(), name: "e".to_string() })
    );
    assert_eq!(tag_to_json(&None), Value::Null);
    assert_eq!(LicensedArticle::from_json(&parse(r#"{"type":"Article"}"#)), None);
    let article = LicensedArticle::from_json(&parse(r#"{"id":"a","published":"soon","tag":{"type":"Hashtag"},"icon":"x","source":"s"}"#)).unwrap();
    assert_eq!(article.object.published, 0);
    assert_eq!(article.object.tag, vec![]);
    assert_eq!(article.object.icon, None);
    assert_eq!(article.object.source, Source { media_type: String::new(), content: String::new() });
}

fn new_user(host: &str, name: &str, instance_id: i32) -> NewUser {
    NewUser {
        username: name.to_string(),
        fqn: format!("{}@{}", name, host),
        ap_url: format!("https://{}/@/{}", host, name),
        inbox_url: format!("https://{}/@/{}/inbox", host, name),
        shared_inbox_url: Some(format!("https://{}/inbox", host)),
        followers_endpoint: format!("https://{}/@/{}/followers", host, name),
        public_key: String::new(),
        instance_id,
    }
}

fn stored(id: i32, new: NewUser) -> User {
    User {
        id,
        username: new.username,
        fqn: new.fqn,
        ap_url: new.ap_url,
        inbox_url: new.inbox_url,
        shared_inbox_url: new.shared_inbox_url,
        followers_endpoint: new.followers_endpoint,
        public_key: new.public_key,
        instance_id: new.instance_id,
    }
}

fn post(blog_id: i32) -> Post {
    Post {
        id: 1,
        blog_id,
        slug: "post".to_string(),
        title: "Post".to_string(),
        content: "<p>Hello.</p>".to_string(),
        published: true,
        license: "CC-BY-SA".to_string(),
        creation_date: 10,
        ap_url: "https://here.example/~/blog/post".to_string(),
        subtitle: String::new(),
        source: "Hello.".to_string(),
        cover_id: None,
    }
}

#[test]
fn a_like_travels_from_one_instance_to_another() {
    // On Bob's instance: Bob likes Alice's post, which is known there.
    let mut there = Store::new(2, "b.example".to_string(), 1556712000);
    there.users.add(stored(1, new_user("b.example", "bob", 2)));
    there.users.add(stored(2, new_user("here.example", "alice", 1)));
    there.posts.add(post(1));
    let bob = User::get(&there, 1).unwrap();
    let alice = User::get(&there, 2).unwrap();
    let new = NewLike::new(&Post::get(&there, 1).unwrap(), &bob);
    let like = Like::insert(&mut there, new).unwrap();
    let activity = like.to_activity(&there).unwrap();
    let key = Actor::new(&bob.ap_url);
    let deliveries = prepare(
        &key,
        activity.to_json(),
        &vec![alice, bob.clone()],
        2,
        "2019-05-01T12:00:00+00:00",
        "Wed, 01 May 2019 12:00:00 GMT",
    )
    .unwrap();
    assert_eq!(deliveries.len(), 1);
    assert_eq!(deliveries[0].inbox, "https://here.example/inbox");

    // On Alice's instance: the request is checked, then applied.
    let mut here = Store::new(1, "here.example".to_string(), 1556712060);
    here.users.add(stored(1, new_user("here.example", "alice", 1)));
    here.blogs.add(Blog {
        id: 1,
        actor_id: "blog".to_string(),
        title: "Blog".to_string(),
        fqn: "blog".to_string(),
        ap_url: "https://here.example/~/blog".to_string(),
        inbox_url: "https://here.example/~/blog/inbox".to_string(),
        instance_id: 1,
    });
    here.posts.add(post(1));
    here.post_authors.add(PostAuthor { id: 1, post_id: 1, author_id: 1 });
    let now = Instant { secs: 1556712060, nanos: 0 };
    let delivery = &deliveries[0];
    let transport = verify_http_headers_at(&key, &delivery.headers, &Digest::from_body(&delivery.body), now);
    assert_eq!(transport, SignatureValidity::Valid);
    let document: Value = serde_json::from_str(&delivery.body).unwrap();
    let signed = verify_at(document.clone(), &key, now);
    assert!(signed);
    let received = Activity::from_json(&document).unwrap();
    assert_eq!(received, activity);
    let inbound = Inbound { transport, signed, activity: received };
    let fetched = vec![Remote::Actor(new_user("b.example", "bob", 2))];
    let expected = Like {
        id: 1,
        user_id: 2,
        post_id: 1,
        creation_date: 1556712060,
        ap_url: "https://b.example/@/bob/like/https://here.example/~/blog/post".to_string(),
    };
    assert_eq!(inbox(&mut here, &fetched, &inbound), Ok(InboxResult::Liked(expected.clone())));
    assert_eq!(inbox(&mut here, &fetched, &inbound), Ok(InboxResult::Liked(expected.clone())));
    assert_eq!(here.likes.rows, vec![expected]);
}

#[test]
fn a_request_is_checked_before_it_is_applied() {
    let mut there = Store::new(2, "b.example".to_string(), 1556712000);
    there.users.add(stored(1, new_user("b.example", "bob", 2)));
    there.users.add(stored(2, new_user("here.example", "alice", 1)));
    there.posts.add(post(1));
    let bob = User::get(&there, 1).unwrap();
    let alice = User::get(&there, 2).unwrap();
    let new = NewLike::new(&Post::get(&there, 1).unwrap(), &bob);
    let like = Like::insert(&mut there, new).unwrap();
    let key = Actor::new(&bob.ap_url);
    let deliveries = prepare(
        &key,
        like.to_activity(&there).unwrap().to_json(),
        &vec![alice],
        2,
        "2019-05-01T12:00:00+00:00",
        "Wed, 01 May 2019 12:00:00 GMT",
    )
    .unwrap();
    let delivery = &deliveries[0];
    let fresh_store = || {
        let mut here = Store::new(1, "here.example".to_string(), 1556712060);
        here.users.add(stored(1, new_user("here.example", "alice", 1)));
        here.posts.add(post(1));
        here
    };
    let fetched = vec![Remote::Actor(new_user("b.example", "bob", 2))];
    let now = Instant { secs: 1556712060, nanos: 0 };
    let mut here = fresh_store();
    let result = process_at(&mut here, &fetched, &key, &delivery.headers, &delivery.body, now);
    assert!(matches!(result, Ok(InboxResult::Liked(_))));
    assert_eq!(here.likes.rows.len(), 1);
    assert_eq!(process_at(&mut here, &fetched, &key, &delivery.headers, &delivery.body, now), result);
    assert_eq!(here.likes.rows.len(), 1);

    let other = Actor::new("https://c.example/@/eve");
    let mut here = fresh_store();
    assert_eq!(
        process_at(&mut here, &fetched, &other, &delivery.headers, &delivery.body, now),
        Err(InboxError::Rejected)
    );
    let later = Instant { secs: 1556712000 + 13 * 3600, nanos: 0 };
    assert_eq!(
        process_at(&mut here, &fetched, &key, &delivery.headers, &delivery.body, later),
        Err(InboxError::Rejected)
    );
    assert_eq!(process(&mut here, &fetched, &key, &delivery.headers, &delivery.body), Err(InboxError::Rejected));
    let tampered = delivery.body.replace("/like/", "/love/");
    assert_eq!(
        process_at(&mut here, &fetched, &key, &delivery.headers, &tampered, now),
        Err(InboxError::Rejected)
    );
    assert_eq!(
        process_at(&mut here, &fetched, &key, &delivery.headers, "{not json", now),
        Err(InboxError::Rejected)
    );
    assert!(here.likes.rows.is_empty());
    assert_eq!(here.users.rows.len(), 1);

    // A document whose own signature was made by another key passes the
    // request's check but not the document's.
    let mut forged: Value = serde_json::from_str(&delivery.body).unwrap();
    forged["signature"]["signatureValue"] = Value::String(base64::encode(b"not a signature"));
    let forged = forged.to_string();
    let headers = plume_federation::broadcast::request_headers(&key, &forged, "Wed, 01 May 2019 12:00:00 GMT").unwrap();
    assert_eq!(process_at(&mut here, &fetched, &key, &headers, &forged, now), Err(InboxError::Rejected));
    assert!(here.likes.rows.is_empty());

    // A kind that is not known here is left alone.
    let accept = r#"{"type":"Accept","id":"https://b.example/accept/1","actor":"https://b.example/@/bob","object":"x"}"#;
    let headers = plume_federation::broadcast::request_headers(&key, accept, "Wed, 01 May 2019 12:00:00 GMT").unwrap();
    assert_eq!(process_at(&mut here, &fetched, &key, &headers, accept, now), Ok(InboxResult::Other));
    assert_eq!(here.users.rows.len(), 1);
    let _ = inbox;
    let _ = Inbound { transport: SignatureValidity::Valid, signed: true, activity: like.to_activity(&there).unwrap() };
}
