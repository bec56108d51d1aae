use openssl::hash::MessageDigest;
use openssl::pkey::{PKey, Private};
use plume_federation::activity_pub::context;
use plume_federation::broadcast::{broadcast, inboxes, prepare, request_headers, BroadcastError};
use plume_federation::keys::gen_keypair;
use plume_federation::request::{verify_http_headers_at, Digest};
use plume_federation::sign::{verify_at, SignatureValidity, Signer};
use plume_federation::time::Instant;
use plume_federation::users::User;
use serde_json::Value;

struct Sender {
    key: PKey<Private>,
}

impl Sender {
    fn new() -> Sender {
        let (_public, private) = gen_keypair().unwrap();
        Sender { key: PKey::private_key_from_pem(&private).unwrap() }
    }
}

impl Signer for Sender {
    type Error = openssl::error::ErrorStack;

    fn get_key_id(&self) -> String {
        "https://here.example/@/alice#main-key".to_string()
    }

    fn sign(&self, to_sign: &str) -> Result<Vec<u8>, Self::Error> {
        let mut signer = openssl::sign::Signer::new(MessageDigest::sha256(), &self.key)?;
        signer.update(to_sign.as_bytes())?;
        signer.sign_to_vec()
    }

    fn verify(&self, data: &str, signature: &[u8]) -> Result<bool, Self::Error> {
        let mut verifier = openssl::sign::Verifier::new(MessageDigest::sha256(), &self.key)?;
        verifier.update(data.as_bytes())?;
        verifier.verify(signature)
    }
}

struct Mute;

impl Signer for Mute {
    type Error = ();

    fn get_key_id(&self) -> String {
        "mute".to_string()
    }

    fn sign(&self, _to_sign: &str) -> Result<Vec<u8>, ()> {
        Err(())
    }

    fn verify(&self, _data: &str, _signature: &[u8]) -> Result<bool, ()> {
        Ok(false)
    }
}

fn user(id: i32, host: &str, name: &str, shared: bool, instance_id: i32) -> User {
    User {
        id,
        username: name.to_string(),
        fqn: format!("{}@{}", name, host),
        ap_url: format!("https://{}/@/{}", host, name),
        inbox_url: format!("https://{}/@/{}/inbox", host, name),
        shared_inbox_url: if shared { Some(format!("https://{}/inbox", host)) } else { None },
        followers_endpoint: format!("https://{}/@/{}/followers", host, name),
        public_key: String::new(),
        instance_id,
    }
}

fn article() -> Value {
    serde_json::from_str(
        r#"{"type":"Create","id":"https://here.example/~/blog/postactivity","actor":"https://here.example/@/alice","to":["https://www.w3.org/ns/activitystreams#Public"],"object":{"type":"Article","id":"https://here.example/~/blog/post"}}"#,
    )
    .unwrap()
}

const CREATED: &str = "2019-05-01T12:00:00+00:00";
const DATE: &str = "Wed, 01 May 2019 12:00:00 GMT";
const SECS: i64 = 1556712000;

#[test]
fn followers_of_one_instance_share_a_delivery() {
    let followers = vec![
        user(2, "b.example", "bob", true, 2),
        user(3, "b.example", "bea", true, 2),
        user(4, "c.example", "cat", false, 3),
        user(5, "here.example", "ann", true, 1),
        user(6, "c.example", "cal", false, 3),
        user(7, "b.example", "ben", true, 2),
    ];
    assert_eq!(
        inboxes(&followers, 1),
        vec![
            "https://b.example/inbox".to_string(),
            "https://c.example/@/cat/inbox".to_string(),
            "https://c.example/@/cal/inbox".to_string(),
        ]
    );
}

#[test]
fn local_recipients_get_no_delivery() {
    let followers = vec![user(5, "here.example", "ann", true, 1), user(8, "here.example", "abe", false, 1)];
    assert_eq!(inboxes(&followers, 1), Vec::<String>::new());
    assert_eq!(inboxes(&Vec::new(), 1), Vec::<String>::new());
    assert_eq!(inboxes(&followers, 2).len(), 2);
}

#[test]
fn each_delivery_is_signed_on_its_own() {
    let sender = Sender::new();
    let followers = vec![
        user(2, "b.example", "bob", true, 2),
        user(3, "b.example", "bea", true, 2),
        user(4, "c.example", "cat", false, 3),
    ];
    let deliveries = prepare(&sender, article(), &followers, 1, CREATED, DATE).unwrap();
    assert_eq!(deliveries.len(), 2);
    assert_eq!(deliveries[0].inbox, "https://b.example/inbox");
    assert_eq!(deliveries[1].inbox, "https://c.example/@/cat/inbox");
    let now = Instant { secs: SECS + 60, nanos: 0 };
    for delivery in &deliveries {
        assert_eq!(delivery.body, deliveries[0].body);
        let data = Digest::from_body(&delivery.body);
        assert_eq!(delivery.headers.get("digest"), Some(&Digest::digest(&delivery.body)));
        assert_eq!(
            verify_http_headers_at(&sender, &delivery.headers, &data, now),
            SignatureValidity::Valid
        );
        let document: Value = serde_json::from_str(&delivery.body).unwrap();
        assert_eq!(document["@context"], context());
        assert_eq!(document["type"], Value::String("Create".to_string()));
        assert_eq!(document["signature"]["created"], Value::String(CREATED.to_string()));
        assert!(verify_at(document, &sender, now));
    }
}

#[test]
fn broadcast_needs_an_object_and_a_working_signer() {
    let sender = Sender::new();
    let followers = vec![user(2, "b.example", "bob", true, 2)];
    assert_eq!(
        prepare(&sender, Value::String("x".to_string()), &followers, 1, CREATED, DATE),
        Err(BroadcastError::NotAnObject)
    );
    assert_eq!(
        prepare(&Mute, article(), &followers, 1, CREATED, DATE),
        Err(BroadcastError::Signature)
    );
    assert_eq!(request_headers(&Mute, "{}", DATE), Err(BroadcastError::RequestSignature));
    let now = broadcast(&sender, article(), &followers, 1).unwrap();
    assert_eq!(now.len(), 1);
    assert_eq!(now[0].inbox, "https://b.example/inbox");
    assert_eq!(now[0].headers.list.len(), 6);
    assert_eq!(broadcast(&sender, article(), &Vec::new(), 1).unwrap().len(), 0);
}

#[test]
fn the_context_names_two_vocabularies_and_the_terms() {
    let expected: Value = serde_json::from_str(
        r#"["https://www.w3.org/ns/activitystreams","https://w3id.org/security/v1",{"manuallyApprovesFollowers":"as:manuallyApprovesFollowers","sensitive":"as:sensitive","movedTo":"as:movedTo","Hashtag":"as:Hashtag","ostatus":"http://ostatus.org#","atomUri":"ostatus:atomUri","inReplyToAtomUri":"ostatus:inReplyToAtomUri","conversation":"ostatus:conversation","toot":"http://joinmastodon.org/ns#","Emoji":"toot:Emoji","focalPoint":{"@container":"@list","@id":"toot:focalPoint"},"featured":"toot:featured"}]"#,
    )
    .unwrap();
    assert_eq!(context(), expected);
}
