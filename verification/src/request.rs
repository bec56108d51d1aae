//! The transport level of a delivery: the headers of a request, the digest
//! of its body, and the `Signature` header that covers them.

use crate::activity_pub::{ap_accept_header, AP_CONTENT_TYPE};
use crate::codec::{
    base64_bytes, base64_decode, base64_encode, base64_text, sha256, sha256_digest,
};
use crate::sign::{SignatureValidity, Signer};
use crate::table::{first_index, lemma_first_index_at, lemma_first_index_none};
use crate::text::{
    copy_text, find_char, has_text, join, join2, joined, lowercase, pieces, position_of,
    same_bytes, same_text, split, split_words, starts_with, texts, to_lowercase, words,
};
use crate::time::{
    fresh, http_date_instant, is_fresh, now, now_http_date, parse_http_date, Instant,
};
use vstd::prelude::*;

verus! {

/// The name under which this software introduces itself.
pub const USER_AGENT: &'static str = "Plume/0.1.0";

/// The algorithm named in a `Signature` header.
pub const SIGNATURE_ALGORITHM: &'static str = "rsa-sha256";

/// The algorithm of the digests that are made here.
pub const DIGEST_ALGORITHM: &'static str = "SHA-256";

/// One header of a request.
#[derive(Clone, Debug, PartialEq, Eq)]
pub struct Header {
    pub name: String,
    pub value: String,
}

/// The headers of a request, in the order in which they were first set.
#[derive(Clone, Debug, PartialEq, Eq)]
pub struct Headers {
    pub list: Vec<Header>,
}

/// A header as a pair of texts: its name and its value.
pub open spec fn header_pair(header: Header) -> (Seq<char>, Seq<char>) {
    (header.name@, header.value@)
}

/// The headers with a given name.
pub open spec fn named(name: Seq<char>) -> spec_fn((Seq<char>, Seq<char>)) -> bool {
    |pair: (Seq<char>, Seq<char>)| pair.0 == name
}

/// The value of the first header with a name.
pub open spec fn value_of(headers: Seq<(Seq<char>, Seq<char>)>, name: Seq<char>) -> Option<
    Seq<char>,
> {
    match first_index(headers, named(name)) {
        Some(at) => Some(headers[at].1),
        None => None,
    }
}

/// Headers after one is set: the value replaces that of the first header
/// with the name, or the header is added at the end.
pub open spec fn with_header(
    headers: Seq<(Seq<char>, Seq<char>)>,
    name: Seq<char>,
    value: Seq<char>,
) -> Seq<(Seq<char>, Seq<char>)> {
    match first_index(headers, named(name)) {
        Some(at) => headers.update(at, (name, value)),
        None => headers.push((name, value)),
    }
}

impl View for Headers {
    type V = Seq<(Seq<char>, Seq<char>)>;

    open spec fn view(&self) -> Seq<(Seq<char>, Seq<char>)> {
        self.list@.map_values(|header: Header| header_pair(header))
    }
}

impl Headers {
    /// No headers.
    pub fn new() -> (headers: Headers)
        ensures
            headers@ == Seq::<(Seq<char>, Seq<char>)>::empty(),
    {
        let headers = Headers { list: Vec::new() };
        assert(headers@ =~= Seq::empty());
        headers
    }

    /// Where the first header with a name stands.
    fn position(&self, name: &str) -> (at: Option<usize>)
        ensures
            at is Some == first_index(self@, named(name@)) is Some,
            at matches Some(i) ==> first_index(self@, named(name@)) == Some(i as int) && i
                < self.list@.len(),
    {
        let mut i: usize = 0;
        while i < self.list.len()
            invariant
                i <= self.list@.len(),
                forall|j: int| 0 <= j < i ==> self@[j].0 != name@,
            decreases self.list@.len() - i,
        {
            if same_text(self.list[i].name.as_str(), name) {
                proof {
                    lemma_first_index_at(self@, named(name@), i as int);
                }
                return Some(i);
            }
            i += 1;
        }
        proof {
            lemma_first_index_none(self@, named(name@));
        }
        None
    }

    /// The value of the first header with a name. Names are matched letter
    /// by letter.
    pub fn get(&self, name: &str) -> (value: Option<&String>)
        ensures
            value is Some == value_of(self@, name@) is Some,
            value matches Some(text) ==> value_of(self@, name@) == Some(text@),
    {
        match self.position(name) {
            Some(i) => Some(&self.list[i].value),
            None => None,
        }
    }

    /// Set a header. The name is put in lowercase; a header of that name
    /// that is already there gets the new value.
    pub fn insert(&mut self, name: &str, value: String)
        ensures
            final(self)@ == with_header(old(self)@, lowercase(name@), value@),
    {
        let lowered = to_lowercase(name);
        let ghost pair = (lowered@, value@);
        match self.position(lowered.as_str()) {
            Some(i) => {
                self.list.set(i, Header { name: lowered, value });
                assert(self@ =~= old(self)@.update(i as int, pair));
            },
            None => {
                self.list.push(Header { name: lowered, value });
                assert(self@ =~= old(self)@.push(pair));
            },
        }
    }

    /// The names of the headers, in their order.
    pub fn names(&self) -> (names: Vec<String>)
        ensures
            texts(names@) == header_names(self@),
    {
        let mut names: Vec<String> = Vec::new();
        let mut i: usize = 0;
        while i < self.list.len()
            invariant
                i <= self.list@.len(),
                texts(names@) == header_names(self@).take(i as int),
            decreases self.list@.len() - i,
        {
            names.push(copy_text(&self.list[i].name));
            assert(texts(names@) =~= header_names(self@).take(i as int).push(self@[i as int].0));
            assert(header_names(self@).take(i + 1) =~= header_names(self@).take(i as int).push(
                self@[i as int].0,
            ));
            i += 1;
        }
        assert(header_names(self@).take(self.list@.len() as int) =~= header_names(self@));
        names
    }
}

/// The names of headers, in their order.
pub open spec fn header_names(headers: Seq<(Seq<char>, Seq<char>)>) -> Seq<Seq<char>> {
    headers.map_values(|pair: (Seq<char>, Seq<char>)| pair.0)
}

/// The line that stands for a header in what is signed: the name in
/// lowercase, a colon and a space, and the value.
pub open spec fn signed_line(name: Seq<char>, value: Seq<char>) -> Seq<char> {
    lowercase(name) + ": "@ + value
}

/// The lines of all headers, in their order.
pub open spec fn signed_lines(headers: Seq<(Seq<char>, Seq<char>)>) -> Seq<Seq<char>> {
    headers.map_values(|pair: (Seq<char>, Seq<char>)| signed_line(pair.0, pair.1))
}

/// What is signed for a request: the lines of its headers, each on a line
/// of its own.
pub open spec fn signing_string(headers: Seq<(Seq<char>, Seq<char>)>) -> Seq<char> {
    joined(signed_lines(headers), "\n"@)
}

/// The list of header names in a `Signature` header: the names in
/// lowercase, with a space between each two.
pub open spec fn signed_names(headers: Seq<(Seq<char>, Seq<char>)>) -> Seq<char> {
    lowercase(joined(header_names(headers), " "@))
}

/// The value of a `Signature` header.
pub open spec fn signature_value(key_id: Seq<char>, names: Seq<char>, signature: Seq<u8>) -> Seq<
    char,
> {
    "keyId=\""@ + key_id + "\",algorithm=\""@ + SIGNATURE_ALGORITHM@ + "\",headers=\""@ + names
        + "\",signature=\""@ + base64_text(signature) + "\""@
}

/// Build the line of a header for signing.
fn line_of(name: &str, value: &str) -> (line: String)
    ensures
        line@ == signed_line(name@, value@),
{
    to_lowercase(name).concat(": ").concat(value)
}

/// The text that is signed for a set of headers.
pub fn text_to_sign(headers: &Headers) -> (text: String)
    ensures
        text@ == signing_string(headers@),
{
    let mut lines: Vec<String> = Vec::new();
    let mut i: usize = 0;
    while i < headers.list.len()
        invariant
            i <= headers.list@.len(),
            texts(lines@) == signed_lines(headers@).take(i as int),
        decreases headers.list@.len() - i,
    {
        let header = &headers.list[i];
        lines.push(line_of(header.name.as_str(), header.value.as_str()));
        assert(texts(lines@) =~= signed_lines(headers@).take(i as int).push(
            signed_line(headers@[i as int].0, headers@[i as int].1),
        ));
        assert(signed_lines(headers@).take(i + 1) =~= signed_lines(headers@).take(i as int).push(
            signed_line(headers@[i as int].0, headers@[i as int].1),
        ));
        i += 1;
    }
    assert(signed_lines(headers@).take(headers.list@.len() as int) =~= signed_lines(headers@));
    join(&lines, "\n")
}

/// The list of header names that goes into a `Signature` header.
pub fn names_to_sign(headers: &Headers) -> (names: String)
    ensures
        names@ == signed_names(headers@),
{
    let names = headers.names();
    to_lowercase(join(&names, " ").as_str())
}

/// The value of a `Signature` header for a key, a list of header names and
/// a signature.
pub fn signature_header(key_id: &str, names: &str, signature: &[u8]) -> (value: String)
    ensures
        value@ == signature_value(key_id@, names@, signature@),
{
    let encoded = base64_encode(signature);
    String::from_str("keyId=\"").concat(key_id).concat("\",algorithm=\"").concat(
        SIGNATURE_ALGORITHM,
    ).concat("\",headers=\"").concat(names).concat("\",signature=\"").concat(
        encoded.as_str(),
    ).concat("\"")
}

/// The `Signature` header for a set of headers: the signer signs the lines
/// of all of them, in their order. An error of the signer is the only
/// failure.
pub fn signature<S: Signer>(signer: &S, headers: &Headers) -> (value: Result<String, ()>)
    ensures
        value matches Ok(text) ==> exists|key_id: Seq<char>, signed: Seq<u8>|
            text@ == signature_value(key_id, signed_names(headers@), signed),
{
    let text = text_to_sign(headers);
    let names = names_to_sign(headers);
    match signer.sign(text.as_str()) {
        Ok(signed) => {
            let key_id = signer.get_key_id();
            Ok(signature_header(key_id.as_str(), names.as_str(), signed.as_slice()))
        },
        Err(_) => Err(()),
    }
}

/// The value of the `Accept` header: the accepted media types, the
/// preferred one first.
pub open spec fn accept_value() -> Seq<char> {
    joined(
        seq![
            "application/ld+json; profile=\"https://w3.org/ns/activitystreams\""@,
            "application/ld+json;profile=\"https://w3.org/ns/activitystreams\""@,
            "application/activity+json"@,
            "application/ld+json"@,
        ],
        ", "@,
    )
}

/// The headers of a request made at a given date, before digest and
/// signature.
pub open spec fn default_headers(date: Seq<char>) -> Seq<(Seq<char>, Seq<char>)> {
    seq![
        ("user-agent"@, USER_AGENT@),
        ("date"@, date),
        ("accept"@, accept_value()),
        ("content-type"@, AP_CONTENT_TYPE@),
    ]
}

/// The headers that every request carries, for a request made at the given
/// date.
pub fn headers_at(date: &str) -> (headers: Headers)
    ensures
        headers@ == default_headers(date@),
{
    let types = ap_accept_header();
    let mut accepted: Vec<String> = Vec::new();
    let mut i: usize = 0;
    while i < types.len()
        invariant
            i <= types@.len(),
            accepted@.len() == i,
            forall|j: int| 0 <= j < i ==> accepted@[j]@ == types@[j]@,
        decreases types@.len() - i,
    {
        accepted.push(String::from_str(types[i]));
        i += 1;
    }
    assert(texts(accepted@) =~= seq![
        "application/ld+json; profile=\"https://w3.org/ns/activitystreams\""@,
        "application/ld+json;profile=\"https://w3.org/ns/activitystreams\""@,
        "application/activity+json"@,
        "application/ld+json"@,
    ]);
    let accept = join(&accepted, ", ");
    let mut list: Vec<Header> = Vec::new();
    list.push(Header { name: String::from_str("user-agent"), value: String::from_str(USER_AGENT) });
    list.push(Header { name: String::from_str("date"), value: String::from_str(date) });
    list.push(Header { name: String::from_str("accept"), value: accept });
    list.push(
        Header {
            name: String::from_str("content-type"),
            value: String::from_str(AP_CONTENT_TYPE),
        },
    );
    let headers = Headers { list };
    assert(headers@ =~= default_headers(date@));
    headers
}

/// The headers that every request carries, dated now.
pub fn headers() -> (headers: Headers)
    ensures
        exists|date: Seq<char>| headers@ == default_headers(date),
{
    let date = now_http_date();
    headers_at(date.as_str())
}

/// The digest of a request's body, as the `Digest` header gives it: the
/// name of an algorithm, an equals sign, and the digest in base64.
#[derive(Clone, Debug, PartialEq, Eq)]
pub struct Digest(pub String);

/// The value of the `Digest` header for a body.
pub open spec fn digest_of(body: Seq<char>) -> Seq<char> {
    DIGEST_ALGORITHM@ + "="@ + base64_text(sha256_digest(vstd::utf8::encode_utf8(body)))
}

/// The name of the algorithm in a digest: what stands before the first
/// equals sign, or the whole text where there is none.
pub open spec fn digest_algorithm(text: Seq<char>) -> Seq<char> {
    match position_of(text, '=') {
        Some(at) => text.take(at),
        None => text,
    }
}

/// The encoded value in a digest: what follows the first equals sign;
/// nothing where there is none.
pub open spec fn digest_encoded(text: Seq<char>) -> Seq<char> {
    match position_of(text, '=') {
        Some(at) => text.skip(at + 1),
        None => Seq::empty(),
    }
}

/// The bytes of a digest, where its value is base64.
pub open spec fn digest_bytes(text: Seq<char>) -> Option<Seq<u8>> {
    base64_bytes(digest_encoded(text))
}

impl View for Digest {
    type V = Seq<char>;

    open spec fn view(&self) -> Seq<char> {
        self.0@
    }
}

impl Digest {
    /// The value of the `Digest` header for a body.
    pub fn digest(body: &str) -> (value: String)
        ensures
            value@ == digest_of(body@),
    {
        let hashed = sha256(body.as_bytes());
        let encoded = base64_encode(hashed.as_slice());
        String::from_str(DIGEST_ALGORITHM).concat("=").concat(encoded.as_str())
    }

    /// The digest of a body.
    pub fn from_body(body: &str) -> (digest: Digest)
        ensures
            digest@ == digest_of(body@),
    {
        Digest(Digest::digest(body))
    }

    /// Take up the value of a `Digest` header: it must hold an equals sign,
    /// and base64 after the first one.
    pub fn from_header(text: &str) -> (digest: Result<Digest, ()>)
        ensures
            digest is Ok == (position_of(text@, '=') is Some && digest_bytes(text@) is Some),
            digest matches Ok(d) ==> d@ == text@,
    {
        match find_char(text, '=') {
            Some(at) => {
                let length = text.unicode_len();
                let encoded = text.substring_char(at + 1, length);
                assert(encoded@ =~= text@.skip(at + 1));
                match base64_decode(encoded) {
                    Some(_) => Ok(Digest(String::from_str(text))),
                    None => Err(()),
                }
            },
            None => Err(()),
        }
    }

    /// The name of the digest's algorithm.
    pub fn algorithm(&self) -> (name: String)
        ensures
            name@ == digest_algorithm(self@),
    {
        let text = self.0.as_str();
        match find_char(text, '=') {
            Some(at) => {
                let name = String::from_str(text.substring_char(0, at));
                assert(name@ =~= self@.take(at as int));
                name
            },
            None => String::from_str(text),
        }
    }

    /// The bytes of the digest; `None` where its value is no base64.
    pub fn value(&self) -> (bytes: Option<Vec<u8>>)
        ensures
            bytes is Some == digest_bytes(self@) is Some,
            bytes matches Some(b) ==> b@ == digest_bytes(self@).unwrap(),
    {
        let text = self.0.as_str();
        match find_char(text, '=') {
            Some(at) => {
                let length = text.unicode_len();
                let encoded = text.substring_char(at + 1, length);
                assert(encoded@ =~= self@.skip(at + 1));
                base64_decode(encoded)
            },
            None => {
                let empty = String::new();
                base64_decode(empty.as_str())
            },
        }
    }

    /// Whether this is the SHA-256 digest of a body.
    pub fn verify(&self, body: &str) -> (matches: bool)
        ensures
            matches == (digest_algorithm(self@) == DIGEST_ALGORITHM@ && digest_bytes(self@)
                == Some(sha256_digest(vstd::utf8::encode_utf8(body@)))),
    {
        let name = self.algorithm();
        if !same_text(name.as_str(), DIGEST_ALGORITHM) {
            return false;
        }
        match self.value() {
            Some(bytes) => {
                let hashed = sha256(body.as_bytes());
                same_bytes(bytes.as_slice(), hashed.as_slice())
            },
            None => false,
        }
    }

    /// Whether two digests hold the same bytes. Digests whose value is no
    /// base64 equal nothing.
    pub fn verify_header(&self, other: &Digest) -> (same: bool)
        ensures
            same == (digest_bytes(self@) is Some && digest_bytes(self@) == digest_bytes(other@)),
    {
        match (self.value(), other.value()) {
            (Some(mine), Some(theirs)) => same_bytes(mine.as_slice(), theirs.as_slice()),
            _ => false,
        }
    }
}

/// The value that a part of a `Signature` header gives to a key: the part
/// must read key, equals sign, quotation mark, value, quotation mark.
pub open spec fn quoted(part: Seq<char>, key: Seq<char>) -> Option<Seq<char>> {
    if (key + "="@).is_prefix_of(part) && part.len() >= key.len() + 3 {
        Some(part.subrange(key.len() as int + 2, part.len() as int - 1))
    } else {
        None
    }
}

/// The value that the last part with a key gives to it.
pub open spec fn last_quoted(parts: Seq<Seq<char>>, key: Seq<char>) -> Option<Seq<char>>
    decreases parts.len(),
{
    if parts.len() == 0 {
        None
    } else {
        match quoted(parts.last(), key) {
            Some(value) => Some(value),
            None => last_quoted(parts.drop_last(), key),
        }
    }
}

/// The value that a `Signature` header gives to a key: its parts are
/// separated by commas.
pub open spec fn signature_part(header: Seq<char>, key: Seq<char>) -> Option<Seq<char>> {
    last_quoted(pieces(header, ','), key)
}

/// Read the value that one part gives to a key.
fn read_quoted(part: &str, key: &str) -> (value: Option<String>)
    ensures
        value is Some == quoted(part@, key@) is Some,
        value matches Some(text) ==> text@ == quoted(part@, key@).unwrap(),
{
    let prefix = join2(key, "=");
    if !starts_with(part, prefix.as_str()) {
        return None;
    }
    let length = part.unicode_len();
    let key_length = key.unicode_len();
    if length - key_length < 3 {
        return None;
    }
    Some(String::from_str(part.substring_char(key_length + 2, length - 1)))
}

/// Read the value that a `Signature` header gives to a key.
pub fn read_signature_part(header: &str, key: &str) -> (value: Option<String>)
    ensures
        value is Some == signature_part(header@, key@) is Some,
        value matches Some(text) ==> text@ == signature_part(header@, key@).unwrap(),
{
    let parts = split(header, ',');
    let mut value: Option<String> = None;
    let mut i: usize = 0;
    assert(texts(parts@).take(0) =~= Seq::empty());
    while i < parts.len()
        invariant
            i <= parts@.len(),
            value is Some == last_quoted(texts(parts@).take(i as int), key@) is Some,
            value matches Some(text) ==> text@ == last_quoted(
                texts(parts@).take(i as int),
                key@,
            ).unwrap(),
        decreases parts@.len() - i,
    {
        assert(texts(parts@).take(i + 1).drop_last() =~= texts(parts@).take(i as int));
        assert(texts(parts@).take(i + 1).last() == parts@[i as int]@);
        match read_quoted(parts[i].as_str(), key) {
            Some(text) => {
                value = Some(text);
            },
            None => {},
        }
        i += 1;
    }
    assert(texts(parts@).take(parts@.len() as int) =~= texts(parts@));
    value
}

/// The value of a header by a name in any case, or the empty text.
pub open spec fn value_or_empty(headers: Seq<(Seq<char>, Seq<char>)>, name: Seq<char>) -> Seq<
    char,
> {
    match value_of(headers, lowercase(name)) {
        Some(value) => value,
        None => Seq::empty(),
    }
}

/// The lines of the headers that a signature lists, in the order of the
/// list: a header that the request lacks counts with an empty value.
pub open spec fn listed_lines(names: Seq<Seq<char>>, headers: Seq<(Seq<char>, Seq<char>)>) -> Seq<
    Seq<char>,
> {
    names.map_values(|name: Seq<char>| signed_line(name, value_or_empty(headers, name)))
}

/// What a signature must cover for the headers that it lists.
pub open spec fn listed_text(names: Seq<Seq<char>>, headers: Seq<(Seq<char>, Seq<char>)>) -> Seq<
    char,
> {
    joined(listed_lines(names, headers), "\n"@)
}

/// The text that the signature of a request has to cover, for the header
/// names that it lists.
pub fn text_to_check(names: &Vec<String>, headers: &Headers) -> (text: String)
    ensures
        text@ == listed_text(texts(names@), headers@),
{
    let mut lines: Vec<String> = Vec::new();
    let mut i: usize = 0;
    let ghost all = listed_lines(texts(names@), headers@);
    while i < names.len()
        invariant
            i <= names@.len(),
            all == listed_lines(texts(names@), headers@),
            texts(lines@) == all.take(i as int),
        decreases names@.len() - i,
    {
        let name = names[i].as_str();
        let lowered = to_lowercase(name);
        let line = match headers.get(lowered.as_str()) {
            Some(value) => line_of(name, value.as_str()),
            None => line_of(name, ""),
        };
        proof {
            reveal_strlit("");
            assert(""@ =~= Seq::<char>::empty());
            assert(line@ == all[i as int]);
            assert(texts(lines@.push(line)) =~= all.take(i as int).push(all[i as int]));
            assert(all.take(i + 1) =~= all.take(i as int).push(all[i as int]));
        }
        lines.push(line);
        i += 1;
    }
    assert(all.take(names@.len() as int) =~= all);
    join(&lines, "\n")
}

/// Whether a digest header matches the digest of the body.
pub open spec fn digest_matches(headers: Seq<(Seq<char>, Seq<char>)>, body_digest: Seq<char>)
    -> bool {
    let claimed = value_or_empty(headers, "digest"@);
    &&& position_of(claimed, '=') is Some
    &&& digest_bytes(claimed) is Some
    &&& digest_bytes(claimed) == digest_bytes(body_digest)
}

/// The outcome for a request whose signature the sender's key accepted. A
/// signature that does not cover the digest leaves the body unchecked; a
/// digest that is not the body's makes the request invalid; a date that is
/// covered must be there, readable and less than twelve hours away.
pub open spec fn accepted_outcome(
    names: Seq<Seq<char>>,
    headers: Seq<(Seq<char>, Seq<char>)>,
    body_digest: Seq<char>,
    now: Instant,
) -> SignatureValidity {
    if !names.contains("digest"@) {
        SignatureValidity::ValidNoDigest
    } else if !digest_matches(headers, body_digest) {
        SignatureValidity::Invalid
    } else if !names.contains("date"@) {
        SignatureValidity::Valid
    } else {
        match value_of(headers, "date"@) {
            None => SignatureValidity::Outdated,
            Some(date) => match http_date_instant(date) {
                None => SignatureValidity::Outdated,
                Some(sent) => if fresh(sent, now) {
                    SignatureValidity::Valid
                } else {
                    SignatureValidity::Outdated
                },
            },
        }
    }
}

/// Decide on a request whose signature the sender's key accepted.
pub fn outcome_when_accepted(
    names: &Vec<String>,
    headers: &Headers,
    body_digest: &Digest,
    now: Instant,
) -> (outcome: SignatureValidity)
    ensures
        outcome == accepted_outcome(texts(names@), headers@, body_digest@, now),
{
    proof {
        reveal_strlit("digest");
        reveal_strlit("date");
        lemma_lowercase_small("digest"@);
        lemma_lowercase_small("date"@);
    }
    if !has_text(names, "digest") {
        return SignatureValidity::ValidNoDigest;
    }
    let empty = String::new();
    let claimed = match headers.get("digest") {
        Some(value) => value,
        None => &empty,
    };
    assert(claimed@ == value_or_empty(headers@, "digest"@));
    let matches = match Digest::from_header(claimed.as_str()) {
        Ok(digest) => digest.verify_header(body_digest),
        Err(_) => false,
    };
    if !matches {
        return SignatureValidity::Invalid;
    }
    if !has_text(names, "date") {
        return SignatureValidity::Valid;
    }
    let date = match headers.get("date") {
        Some(date) => date,
        None => { return SignatureValidity::Outdated; },
    };
    match parse_http_date(date.as_str()) {
        Some(sent) => if is_fresh(sent, now) {
            SignatureValidity::Valid
        } else {
            SignatureValidity::Outdated
        },
        None => SignatureValidity::Outdated,
    }
}

/// A text without capital letters is its own lowercase form.
pub proof fn lemma_lowercase_small(text: Seq<char>)
    requires
        forall|i: int| 0 <= i < text.len() ==> !('A' <= #[trigger] text[i] <= 'Z'),
    ensures
        lowercase(text) == text,
{
    assert(lowercase(text) =~= text);
}

/// Check the signature of a request at a given time. A request without a
/// `Signature` header has none; one whose header lacks the signature or the
/// list of headers, or whose signature the sender's key does not accept, is
/// invalid; for the others the covered headers decide.
pub fn verify_http_headers_at<S: Signer>(
    sender: &S,
    all_headers: &Headers,
    data: &Digest,
    now: Instant,
) -> (outcome: SignatureValidity)
    ensures
        value_of(all_headers@, "signature"@) is None ==> outcome == SignatureValidity::Absent,
        value_of(all_headers@, "signature"@) matches Some(header) ==> {
            match (signature_part(header, "signature"@), signature_part(header, "headers"@)) {
                (Some(signature), Some(names)) => outcome == SignatureValidity::Invalid || outcome
                    == accepted_outcome(words(names), all_headers@, data@, now),
                _ => outcome == SignatureValidity::Invalid,
            }
        },
{
    let header = match all_headers.get("signature") {
        Some(header) => header,
        None => { return SignatureValidity::Absent; },
    };
    let signature = read_signature_part(header.as_str(), "signature");
    let names = read_signature_part(header.as_str(), "headers");
    let (signature, names) = match (signature, names) {
        (Some(signature), Some(names)) => (signature, names),
        _ => { return SignatureValidity::Invalid; },
    };
    let names = split_words(names.as_str());
    let text = text_to_check(&names, all_headers);
    let bytes = match base64_decode(signature.as_str()) {
        Some(bytes) => bytes,
        None => Vec::new(),
    };
    let accepted = match sender.verify(text.as_str(), bytes.as_slice()) {
        Ok(accepted) => accepted,
        Err(_) => false,
    };
    if !accepted {
        return SignatureValidity::Invalid;
    }
    outcome_when_accepted(&names, all_headers, data, now)
}

/// Whether an outcome is what the covered headers decide at some time.
pub open spec fn accepted_at_some_time(
    names: Seq<Seq<char>>,
    headers: Seq<(Seq<char>, Seq<char>)>,
    body_digest: Seq<char>,
    outcome: SignatureValidity,
) -> bool {
    exists|now: Instant| outcome == #[trigger] accepted_outcome(names, headers, body_digest, now)
}

/// Check the signature of a request now: as at a given time, the time being
/// the clock's.
pub fn verify_http_headers<S: Signer>(sender: &S, all_headers: &Headers, data: &Digest) -> (outcome:
    SignatureValidity)
    ensures
        value_of(all_headers@, "signature"@) is None ==> outcome == SignatureValidity::Absent,
        value_of(all_headers@, "signature"@) matches Some(header) ==> {
            match (signature_part(header, "signature"@), signature_part(header, "headers"@)) {
                (Some(signature), Some(names)) => outcome == SignatureValidity::Invalid
                    || accepted_at_some_time(words(names), all_headers@, data@, outcome),
                _ => outcome == SignatureValidity::Invalid,
            }
        },
{
    verify_http_headers_at(sender, all_headers, data, now())
}

} // verus!
