use openssl::hash::MessageDigest;
use openssl::pkey::{PKey, Private};
use plume_federation::keys::gen_keypair;
use plume_federation::request::{
    headers, headers_at, names_to_sign, outcome_when_accepted, read_signature_part, signature,
    signature_header, text_to_check, text_to_sign, verify_http_headers, verify_http_headers_at,
    Digest, Header, Headers,
};
use plume_federation::sign::{SignatureValidity, Signer};
use plume_federation::time::Instant;

struct Key {
    key: PKey<Private>,
}

impl Key {
    fn new() -> Key {
        let (_public, private) = gen_keypair().unwrap();
        Key { key: PKey::private_key_from_pem(&private).unwrap() }
    }
}

impl Signer for Key {
    type Error = openssl::error::ErrorStack;

    fn get_key_id(&self) -> String {
        "https://a.example/@/alice#main-key".to_string()
    }

    fn sign(&self, to_sign: &str) -> Result<Vec<u8>, Self::Error> {
        let mut signer = openssl::sign::Signer::new(MessageDigest::sha256(), &self.key)?;
        signer.update(to_sign.as_bytes())?;
        signer.sign_to_vec()
    }

    fn verify(&self, data: &str, signature: &[u8]) -> Result<bool, Self::Error> {
        let mut verifier = openssl::sign::Verifier::new(MessageDigest::sha256(), &self.key)?;
        verifier.update(data.as_bytes())?;
        verifier.verify(signature)
    }
}

struct Failing;

impl Signer for Failing {
    type Error = ();

    fn get_key_id(&self) -> String {
        "none".to_string()
    }

    fn sign(&self, _to_sign: &str) -> Result<Vec<u8>, ()> {
        Err(())
    }

    fn verify(&self, _data: &str, _signature: &[u8]) -> Result<bool, ()> {
        Err(())
    }
}

const DATE: &str = "Wed, 01 May 2019 12:00:00 GMT";
const DATE_SECS: i64 = 1556712000;

fn pairs(headers: &Headers) -> Vec<(String, String)> {
    headers.list.iter().map(|h| (h.name.clone(), h.value.clone())).collect()
}

fn signed_request(key: &Key, body: &str) -> Headers {
    let mut all = headers_at(DATE);
    all.insert("Digest", Digest::digest(body));
    let value = signature(key, &all).unwrap();
    all.insert("Signature", value);
    all
}

#[test]
fn digest_is_base64_sha256_of_the_body() {
    assert_eq!(Digest::digest("hello"), "SHA-256=LPJNul+wow4m6DsqxbninhsWHlwfp0JecwQzYpOLmCQ=");
    assert_eq!(Digest::digest(""), "SHA-256=47DEQpj8HBSa+/TImW+5JCeuQeRkm5NMpJWZG3hSuFU=");
    let digest = Digest::from_body("hello");
    assert_eq!(digest.0, Digest::digest("hello"));
    assert_eq!(digest.algorithm(), "SHA-256");
    assert_eq!(digest.value().unwrap(), openssl::sha::sha256(b"hello").to_vec());
    assert!(digest.verify("hello"));
    assert!(!digest.verify("hullo"));
}

#[test]
fn digest_header_needs_an_equals_sign_and_base64() {
    assert!(Digest::from_header("SHA-256=LPJNul+wow4m6DsqxbninhsWHlwfp0JecwQzYpOLmCQ=").is_ok());
    assert_eq!(Digest::from_header("SHA-256"), Err(()));
    assert_eq!(Digest::from_header("SHA-256=not base64!"), Err(()));
    let other = Digest::from_header("MD5=LPJNul+wow4m6DsqxbninhsWHlwfp0JecwQzYpOLmCQ=").unwrap();
    assert_eq!(other.algorithm(), "MD5");
    assert!(!other.verify("hello"));
    assert!(other.verify_header(&Digest::from_body("hello")));
    assert!(!other.verify_header(&Digest::from_body("hullo")));
    let odd = Digest("plain".to_string());
    assert_eq!(odd.algorithm(), "plain");
    assert_eq!(odd.value(), Some(vec![]));
    let broken = Digest("a=*".to_string());
    assert_eq!(broken.value(), None);
    assert!(!broken.verify_header(&broken));
}

#[test]
fn default_headers_are_four() {
    let all = headers_at(DATE);
    assert_eq!(
        pairs(&all),
        vec![
            ("user-agent".to_string(), "Plume/0.1.0".to_string()),
            ("date".to_string(), DATE.to_string()),
            (
                "accept".to_string(),
                "application/ld+json; profile=\"https://w3.org/ns/activitystreams\", application/ld+json;profile=\"https://w3.org/ns/activitystreams\", application/activity+json, application/ld+json".to_string()
            ),
            (
                "content-type".to_string(),
                "application/ld+json; profile=\"https://www.w3.org/ns/activitystreams\"".to_string()
            ),
        ]
    );
    let now = headers();
    assert_eq!(now.list.len(), 4);
    assert!(chrono::NaiveDateTime::parse_from_str(now.get("date").unwrap(), "%a, %d %b %Y %T GMT").is_ok());
}

#[test]
fn inserting_a_header_lowers_its_name_and_replaces() {
    let mut all = Headers::new();
    all.insert("Digest", "one".to_string());
    all.insert("X-Other", "two".to_string());
    all.insert("DIGEST", "three".to_string());
    assert_eq!(
        pairs(&all),
        vec![("digest".to_string(), "three".to_string()), ("x-other".to_string(), "two".to_string())]
    );
    assert_eq!(all.get("digest"), Some(&"three".to_string()));
    assert_eq!(all.get("Digest"), None);
    assert_eq!(all.names(), vec!["digest".to_string(), "x-other".to_string()]);
}

#[test]
fn signed_text_lists_headers_line_by_line() {
    let all = Headers {
        list: vec![
            Header { name: "Date".to_string(), value: DATE.to_string() },
            Header { name: "digest".to_string(), value: "SHA-256=abc".to_string() },
        ],
    };
    assert_eq!(text_to_sign(&all), format!("date: {}\ndigest: SHA-256=abc", DATE));
    assert_eq!(names_to_sign(&all), "date digest");
    assert_eq!(text_to_sign(&Headers::new()), "");
    assert_eq!(names_to_sign(&Headers::new()), "");
}

#[test]
fn signature_header_has_four_parts() {
    let value = signature_header("https://a.example/key", "date digest", &[0, 1, 2, 255]);
    assert_eq!(
        value,
        "keyId=\"https://a.example/key\",algorithm=\"rsa-sha256\",headers=\"date digest\",signature=\"AAEC/w==\""
    );
    assert_eq!(read_signature_part(&value, "keyId"), Some("https://a.example/key".to_string()));
    assert_eq!(read_signature_part(&value, "algorithm"), Some("rsa-sha256".to_string()));
    assert_eq!(read_signature_part(&value, "headers"), Some("date digest".to_string()));
    assert_eq!(read_signature_part(&value, "signature"), Some("AAEC/w==".to_string()));
    assert_eq!(read_signature_part(&value, "other"), None);
}

#[test]
fn signature_parts_are_read_leniently() {
    assert_eq!(read_signature_part("keyId=", "keyId"), None);
    assert_eq!(read_signature_part("keyId=\"", "keyId"), None);
    assert_eq!(read_signature_part("keyId=\"\"", "keyId"), Some("".to_string()));
    assert_eq!(read_signature_part("keyId=\"a\",keyId=\"b\"", "keyId"), Some("b".to_string()));
    assert_eq!(read_signature_part("keyId=\"a\",keyId=", "keyId"), Some("a".to_string()));
    assert_eq!(read_signature_part(" keyId=\"a\"", "keyId"), None);
    assert_eq!(read_signature_part("", "keyId"), None);
}

#[test]
fn signature_of_headers_is_made_by_the_signer() {
    let key = Key::new();
    let mut all = headers_at(DATE);
    all.insert("Digest", Digest::digest("{}"));
    let value = signature(&key, &all).unwrap();
    let expected = signature_header(
        "https://a.example/@/alice#main-key",
        "user-agent date accept content-type digest",
        &key.sign(&text_to_sign(&all)).unwrap(),
    );
    assert_eq!(value, expected);
    assert_eq!(signature(&Failing, &all), Err(()));
}

#[test]
fn text_to_check_follows_the_listed_names() {
    let mut all = headers_at(DATE);
    all.insert("Digest", "SHA-256=abc".to_string());
    let names = vec!["Date".to_string(), "digest".to_string(), "missing".to_string()];
    assert_eq!(
        text_to_check(&names, &all),
        format!("date: {}\ndigest: SHA-256=abc\nmissing: ", DATE)
    );
}

#[test]
fn a_signed_request_is_valid_within_twelve_hours() {
    let key = Key::new();
    let body = "{\"type\":\"Like\"}";
    let all = signed_request(&key, body);
    let data = Digest::from_body(body);
    let at = |secs: i64| Instant { secs, nanos: 0 };
    assert_eq!(verify_http_headers_at(&key, &all, &data, at(DATE_SECS)), SignatureValidity::Valid);
    assert_eq!(
        verify_http_headers_at(&key, &all, &data, at(DATE_SECS + 12 * 3600 - 1)),
        SignatureValidity::Valid
    );
    assert_eq!(
        verify_http_headers_at(&key, &all, &data, at(DATE_SECS + 12 * 3600)),
        SignatureValidity::Outdated
    );
    assert_eq!(
        verify_http_headers_at(&key, &all, &data, at(DATE_SECS - 12 * 3600)),
        SignatureValidity::Outdated
    );
    assert_eq!(verify_http_headers(&key, &all, &data), SignatureValidity::Outdated);
}

#[test]
fn a_request_without_signature_is_absent() {
    let key = Key::new();
    let all = headers_at(DATE);
    let data = Digest::from_body("x");
    assert_eq!(
        verify_http_headers_at(&key, &all, &data, Instant { secs: DATE_SECS, nanos: 0 }),
        SignatureValidity::Absent
    );
    assert_eq!(verify_http_headers(&key, &all, &data), SignatureValidity::Absent);
}

#[test]
fn a_request_with_a_bad_signature_is_invalid() {
    let key = Key::new();
    let other = Key::new();
    let body = "{}";
    let data = Digest::from_body(body);
    let now = Instant { secs: DATE_SECS, nanos: 0 };
    let all = signed_request(&key, body);
    assert_eq!(verify_http_headers_at(&other, &all, &data, now), SignatureValidity::Invalid);
    assert_eq!(verify_http_headers_at(&Failing, &all, &data, now), SignatureValidity::Invalid);
    let mut partial = headers_at(DATE);
    partial.insert("Signature", "keyId=\"k\",algorithm=\"rsa-sha256\",headers=\"date\"".to_string());
    assert_eq!(verify_http_headers_at(&key, &partial, &data, now), SignatureValidity::Invalid);
    assert_eq!(verify_http_headers(&key, &partial, &data), SignatureValidity::Invalid);
    let mut no_list = headers_at(DATE);
    no_list.insert("Signature", "keyId=\"k\",signature=\"AAEC\"".to_string());
    assert_eq!(verify_http_headers_at(&key, &no_list, &data, now), SignatureValidity::Invalid);
    let mut tampered = signed_request(&key, body);
    tampered.insert("Date", "Wed, 01 May 2019 12:00:01 GMT".to_string());
    assert_eq!(verify_http_headers_at(&key, &tampered, &data, now), SignatureValidity::Invalid);
}

#[test]
fn a_body_that_is_not_the_digested_one_is_invalid() {
    let key = Key::new();
    let all = signed_request(&key, "{}");
    let now = Instant { secs: DATE_SECS, nanos: 0 };
    assert_eq!(
        verify_http_headers_at(&key, &all, &Digest::from_body("{ }"), now),
        SignatureValidity::Invalid
    );
}

#[test]
fn the_covered_headers_decide_after_the_signature() {
    let now = Instant { secs: DATE_SECS, nanos: 0 };
    let data = Digest::from_body("{}");
    let mut all = headers_at(DATE);
    all.insert("Digest", Digest::digest("{}"));
    let list = |names: &[&str]| names.iter().map(|n| n.to_string()).collect::<Vec<String>>();
    assert_eq!(
        outcome_when_accepted(&list(&["date"]), &all, &data, now),
        SignatureValidity::ValidNoDigest
    );
    assert_eq!(outcome_when_accepted(&list(&["digest"]), &all, &data, now), SignatureValidity::Valid);
    assert_eq!(
        outcome_when_accepted(&list(&["digest", "date"]), &all, &data, now),
        SignatureValidity::Valid
    );
    assert_eq!(
        outcome_when_accepted(&list(&["digest"]), &all, &Digest::from_body("x"), now),
        SignatureValidity::Invalid
    );
    let mut undated = Headers::new();
    undated.insert("Digest", Digest::digest("{}"));
    assert_eq!(
        outcome_when_accepted(&list(&["digest", "date"]), &undated, &data, now),
        SignatureValidity::Outdated
    );
    undated.insert("Date", "yesterday".to_string());
    assert_eq!(
        outcome_when_accepted(&list(&["digest", "date"]), &undated, &data, now),
        SignatureValidity::Outdated
    );
    let mut undigested = Headers::new();
    undigested.insert("Date", DATE.to_string());
    assert_eq!(
        outcome_when_accepted(&list(&["digest", "date"]), &undigested, &data, now),
        SignatureValidity::Invalid
    );
}

#[test]
fn a_signature_that_skips_the_digest_leaves_the_body_unchecked() {
    let key = Key::new();
    let all_plain = headers_at(DATE);
    let value = signature(&key, &all_plain).unwrap();
    let mut all = headers_at(DATE);
    all.insert("Signature", value);
    assert_eq!(
        verify_http_headers_at(&key, &all, &Digest::from_body("anything"), Instant {
            secs: DATE_SECS,
            nanos: 0
        }),
        SignatureValidity::ValidNoDigest
    );
}
