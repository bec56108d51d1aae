//! Signatures embedded in a JSON document: signing and verification, and the
//! outcome of checking an incoming request.

use crate::codec::{base64_bytes, base64_decode, base64_encode, base64_text, hash, hash_of};
use crate::json::{
    as_text, is_null, is_object, json_is_null, json_is_object, json_member, json_object,
    json_str, json_string, json_text, json_with, json_without, member, object_of, pair_views,
    set_member, string_value, take_member, to_text,
};
use crate::time::{fresh, is_fresh, now, now_rfc3339, parse_rfc3339, rfc3339_instant, Instant};
use serde_json::Value;
use vstd::prelude::*;

verus! {

/// Outcome of checking the signature of an incoming request.
#[derive(Debug, Copy, Clone, PartialEq, Eq, Structural)]
pub enum SignatureValidity {
    Invalid,
    ValidNoDigest,
    Valid,
    Absent,
    Outdated,
}

impl SignatureValidity {
    /// Only a fully verified request (headers and body digest) is secure.
    pub fn is_secure(self) -> (secure: bool)
        ensures
            secure == (self == SignatureValidity::Valid),
    {
        self == SignatureValidity::Valid
    }
}

/// A holder of a key pair that signs on behalf of one actor. What an
/// implementation answers is its own affair: the functions of this module
/// state what they hand to it and what they make of each answer.
pub trait Signer {
    type Error;

    /// The identifier under which the public key is published.
    fn get_key_id(&self) -> String;

    /// Sign some data with the signer's key pair.
    fn sign(&self, to_sign: &str) -> Result<Vec<u8>, Self::Error>;

    /// Check a signature against the signer's public key.
    fn verify(&self, data: &str, signature: &[u8]) -> Result<bool, Self::Error>;
}

/// Why a document could not be signed.
#[derive(Debug, Copy, Clone, PartialEq, Eq, Structural)]
pub enum SignError {
    /// The document is neither a JSON object nor `null`: it cannot hold a
    /// signature block.
    NotAnObject,
    /// The signer reported an error.
    Signer,
}

/// The context named in the options that are hashed with a document.
pub const IDENTITY_CONTEXT: &'static str = "https://w3id.org/identity/v1";

/// The type written into a signature block.
pub const SIGNATURE_TYPE: &'static str = "RsaSignature2017";

/// The member of a document that holds its signature block.
pub const SIGNATURE_KEY: &'static str = "signature";

/// The options object whose text is hashed with a document: the identity
/// context and the creation date.
pub open spec fn identity_options(created: Seq<char>) -> Value {
    json_object(
        seq![("@context"@, json_string(IDENTITY_CONTEXT@)), ("created"@, json_string(created))],
    )
}

/// What is handed to the signer: the hash of the options followed by the
/// hash of the document's text.
pub open spec fn signing_input(created: Seq<char>, document: Seq<char>) -> Seq<char> {
    hash_of(json_text(identity_options(created))) + hash_of(document)
}

/// The signature block of a signed document.
pub open spec fn signature_block(key_id: Seq<char>, created: Seq<char>, signature: Seq<u8>)
    -> Value {
    json_object(
        seq![
            ("type"@, json_string(SIGNATURE_TYPE@)),
            ("creator"@, json_string(key_id)),
            ("created"@, json_string(created)),
            ("signatureValue"@, json_string(base64_text(signature))),
        ],
    )
}

/// A document with its signature block attached.
pub open spec fn signed_document(
    document: Value,
    key_id: Seq<char>,
    created: Seq<char>,
    signature: Seq<u8>,
) -> Value {
    json_with(document, SIGNATURE_KEY@, signature_block(key_id, created, signature))
}

/// What a signed document presents for verification.
pub struct Presented {
    /// The text that the signer has to check: the signing input rebuilt from
    /// the document without its signature block.
    pub data: String,
    /// The signature, decoded.
    pub signature: Vec<u8>,
    /// The creation date that the block claims.
    pub created: Instant,
}

/// The mathematical content of a `Presented`.
pub struct PresentedView {
    pub data: Seq<char>,
    pub signature: Seq<u8>,
    pub created: Instant,
}

impl View for Presented {
    type V = PresentedView;

    open spec fn view(&self) -> PresentedView {
        PresentedView { data: self.data@, signature: self.signature@, created: self.created }
    }
}

/// Whether a document presents for verification what was signed: the
/// signing input of a given text, a signature, and the instant that the
/// creation date names, or nothing where the date names none.
pub open spec fn presents(
    document: Value,
    created: Seq<char>,
    text: Seq<char>,
    signature: Seq<u8>,
) -> bool {
    presented(document) == match rfc3339_instant(created) {
        Some(instant) => Some(
            PresentedView { data: signing_input(created, text), signature, created: instant },
        ),
        None => None,
    }
}

/// The text of the `signatureValue` member of a block: empty when the member
/// is missing or is no string.
pub open spec fn block_signature_text(block: Value) -> Seq<char> {
    match json_member(block, "signatureValue"@) {
        Some(value) => match json_str(value) {
            Some(text) => text,
            None => Seq::empty(),
        },
        None => Seq::empty(),
    }
}

/// The text of the `created` member of a block, if it is a string.
pub open spec fn block_created_text(block: Value) -> Option<Seq<char>> {
    match json_member(block, "created"@) {
        Some(value) => json_str(value),
        None => None,
    }
}

/// What a document presents for verification: nothing unless it is an object
/// with a signature block whose signature decodes and whose creation date is
/// an RFC 3339 date. The text to check is built from the document without
/// the block.
pub open spec fn presented(document: Value) -> Option<PresentedView> {
    match json_member(document, SIGNATURE_KEY@) {
        None => None,
        Some(block) => match (
            base64_bytes(block_signature_text(block)),
            block_created_text(block),
        ) {
            (Some(signature), Some(created)) => match rfc3339_instant(created) {
                Some(instant) => Some(
                    PresentedView {
                        data: signing_input(
                            created,
                            json_text(json_without(document, SIGNATURE_KEY@)),
                        ),
                        signature,
                        created: instant,
                    },
                ),
                None => None,
            },
            _ => None,
        },
    }
}

/// The verdict on a presented signature: it must be fresh, and the signer
/// must have answered that it is valid. An error of the signer counts as a
/// rejection.
pub open spec fn verdict_of<E>(created: Instant, now: Instant, checked: Result<bool, E>) -> bool {
    fresh(created, now) && checked == Ok::<bool, E>(true)
}

/// Build the options object that is hashed with a document.
pub fn options_for(created: &str) -> (options: Value)
    ensures
        options == identity_options(created@),
{
    let mut pairs: Vec<(String, Value)> = Vec::new();
    pairs.push((String::from_str("@context"), string_value(IDENTITY_CONTEXT)));
    pairs.push((String::from_str("created"), string_value(created)));
    assert(pair_views(pairs@) =~= seq![
        ("@context"@, json_string(IDENTITY_CONTEXT@)),
        ("created"@, json_string(created@)),
    ]);
    object_of(pairs)
}

/// The text to hand to a signer for a document and a creation date.
pub fn signing_text(document: &Value, created: &str) -> (text: String)
    ensures
        text@ == signing_input(created@, json_text(*document)),
{
    let options = options_for(created);
    let options_hash = hash(to_text(&options).as_str());
    let document_hash = hash(to_text(document).as_str());
    options_hash.concat(document_hash.as_str())
}

/// Build a signature block.
pub fn block_for(key_id: &str, created: &str, signature: &[u8]) -> (block: Value)
    ensures
        block == signature_block(key_id@, created@, signature@),
        block_signature_text(block) == base64_text(signature@),
        base64_bytes(block_signature_text(block)) == Some(signature@),
        block_created_text(block) == Some(created@),
{
    let encoded = base64_encode(signature);
    let mut pairs: Vec<(String, Value)> = Vec::new();
    pairs.push((String::from_str("type"), string_value(SIGNATURE_TYPE)));
    pairs.push((String::from_str("creator"), string_value(key_id)));
    pairs.push((String::from_str("created"), string_value(created)));
    pairs.push((String::from_str("signatureValue"), string_value(encoded.as_str())));
    proof {
        reveal_strlit("type");
        reveal_strlit("creator");
        reveal_strlit("created");
        reveal_strlit("signatureValue");
        assert(pair_views(pairs@) =~= seq![
            ("type"@, json_string(SIGNATURE_TYPE@)),
            ("creator"@, json_string(key_id@)),
            ("created"@, json_string(created@)),
            ("signatureValue"@, json_string(base64_text(signature@))),
        ]);
        assert(pairs@[0].0@ == "type"@);
        assert(pairs@[1].0@ == "creator"@);
        assert(pairs@[2].0@ == "created"@);
        assert(pairs@[3].0@ == "signatureValue"@);
        assert("type"@.len() == 4 && "creator"@.len() == 7 && "created"@.len() == 7
            && "signatureValue"@.len() == 14);
        assert("creator"@[5] != "created"@[5]);
    }
    let block = object_of(pairs);
    proof {
        assert(json_member(block, pairs@[2].0@) == Some(pairs@[2].1));
        assert(json_member(block, pairs@[3].0@) == Some(pairs@[3].1));
    }
    block
}

/// Attach a signature to a document, which must be a JSON object or `null`.
/// Where the document is an object that held no signature block before, it
/// then presents for verification exactly what was signed: the signing
/// input of the document as it was, the signature and the creation date.
pub fn attach(document: &mut Value, key_id: &str, created: &str, signature: &[u8])
    requires
        json_is_object(*old(document)) || json_is_null(*old(document)),
    ensures
        *final(document) == signed_document(*old(document), key_id@, created@, signature@),
        json_is_object(*old(document)) && json_member(*old(document), SIGNATURE_KEY@) is None
            ==> presents(*final(document), created@, json_text(*old(document)), signature@),
{
    let block = block_for(key_id, created, signature);
    set_member(document, SIGNATURE_KEY, block);
}

/// Sign a document with a given creation date: the signer signs the signing
/// input of the document, and the block is attached under `signature`. The
/// document is left as it was when it cannot hold a block or the signer
/// fails.
pub fn sign_at<T: Signer>(document: &mut Value, creator: &T, created: &str) -> (signed: Result<
    (),
    SignError,
>)
    ensures
        !(json_is_object(*old(document)) || json_is_null(*old(document))) ==> signed == Err::<
            (),
            SignError,
        >(SignError::NotAnObject),
        signed == Err::<(), SignError>(SignError::NotAnObject) ==> !(json_is_object(
            *old(document),
        ) || json_is_null(*old(document))),
        signed is Err ==> *final(document) == *old(document),
        signed is Ok ==> exists|key_id: Seq<char>, signature: Seq<u8>|
            *final(document) == signed_document(*old(document), key_id, created@, signature),
        signed is Ok && json_is_object(*old(document)) && json_member(
            *old(document),
            SIGNATURE_KEY@,
        ) is None ==> exists|signature: Seq<u8>| #[trigger]
            presents(*final(document), created@, json_text(*old(document)), signature),
{
    if !(is_object(document) || is_null(document)) {
        return Err(SignError::NotAnObject);
    }
    let text = signing_text(document, created);
    match creator.sign(text.as_str()) {
        Ok(signature) => {
            let key_id = creator.get_key_id();
            attach(document, key_id.as_str(), created, signature.as_slice());
            Ok(())
        },
        Err(_) => Err(SignError::Signer),
    }
}

/// Read what a document presents for verification, taking the signature
/// block out of it.
pub fn inspect(document: Value) -> (found: Option<Presented>)
    ensures
        found is Some == presented(document) is Some,
        found matches Some(p) ==> p@ == presented(document).unwrap(),
{
    let mut document = document;
    let block = match take_member(&mut document, SIGNATURE_KEY) {
        Some(block) => block,
        None => { return None; },
    };
    let signature_text = match member(&block, "signatureValue") {
        Some(value) => match as_text(&value) {
            Some(text) => text,
            None => String::new(),
        },
        None => String::new(),
    };
    let signature = match base64_decode(signature_text.as_str()) {
        Some(signature) => signature,
        None => { return None; },
    };
    let created = match member(&block, "created") {
        Some(value) => match as_text(&value) {
            Some(text) => text,
            None => { return None; },
        },
        None => { return None; },
    };
    let instant = match parse_rfc3339(created.as_str()) {
        Some(instant) => instant,
        None => { return None; },
    };
    let data = signing_text(&document, created.as_str());
    Some(Presented { data, signature, created: instant })
}

/// The verdict on a presented signature, given the time of the check and
/// the signer's answer.
pub fn verdict<E>(created: Instant, now: Instant, checked: Result<bool, E>) -> (valid: bool)
    ensures
        valid == verdict_of(created, now, checked),
{
    if !is_fresh(created, now) {
        return false;
    }
    match checked {
        Ok(answer) => answer,
        Err(_) => false,
    }
}

/// Verify a document at a given time. It fails closed: a document without a
/// block, with a signature or a date that cannot be read, or with a date
/// that is twelve hours or more away from `now`, is never valid, whatever the
/// signer would answer.
pub fn verify_at<T: Signer>(document: Value, creator: &T, now: Instant) -> (valid: bool)
    ensures
        valid ==> presented(document) is Some && fresh(presented(document).unwrap().created, now),
{
    match inspect(document) {
        None => false,
        Some(found) => {
            if !is_fresh(found.created, now) {
                return false;
            }
            let checked = creator.verify(found.data.as_str(), found.signature.as_slice());
            verdict(found.created, now, checked)
        },
    }
}

/// A JSON document that can carry an embedded signature.
pub trait Signable: Sized {
    /// Sign the document now, on behalf of `creator`, and hand it back for
    /// further use.
    fn sign<T: Signer>(&mut self, creator: &T) -> Result<&mut Self, SignError>;

    /// Verify the document now against `creator`'s key.
    fn verify<T: Signer>(self, creator: &T) -> bool;

    /// Hash a text: the SHA-256 digest of its bytes, in lowercase hexadecimal.
    fn hash(data: &str) -> String;
}

impl Signable for Value {
    fn sign<T: Signer>(&mut self, creator: &T) -> (signed: Result<&mut Value, SignError>)
        ensures
            (signed is Err && signed->Err_0 == SignError::NotAnObject) <==> !(json_is_object(
                *old(self),
            ) || json_is_null(*old(self))),
            signed is Err ==> *final(self) == *old(self),
            signed matches Ok(document) ==> *final(self) == *final(document) && exists|
                key_id: Seq<char>,
                created: Seq<char>,
                signature: Seq<u8>,
            | *document == signed_document(*old(self), key_id, created, signature),
            signed is Ok && json_is_object(*old(self)) && json_member(
                *old(self),
                SIGNATURE_KEY@,
            ) is None ==> exists|created: Seq<char>, signature: Seq<u8>| #[trigger]
                presents(*(signed->Ok_0), created, json_text(*old(self)), signature),
    {
        let created = now_rfc3339();
        match sign_at(self, creator, created.as_str()) {
            Ok(()) => {
                proof {
                    if json_is_object(*old(self)) && json_member(*old(self), SIGNATURE_KEY@)
                        is None {
                        let signature = choose|signature: Seq<u8>| #[trigger]
                            presents(*self, created@, json_text(*old(self)), signature);
                        assert(presents(*self, created@, json_text(*old(self)), signature));
                    }
                }
                Ok(self)
            },
            Err(error) => Err(error),
        }
    }

    fn verify<T: Signer>(self, creator: &T) -> (valid: bool)
        ensures
            valid ==> presented(self) is Some,
    {
        verify_at(self, creator, now())
    }

    fn hash(data: &str) -> (digest: String)
        ensures
            digest@ == hash_of(data@),
            digest@.len() == 64,
    {
        hash(data)
    }
}

/// A fresh signature that the signer accepts is valid; one that the signer
/// rejects, or fails to check, is not.
pub proof fn lemma_fresh_follows_signer<E>(created: Instant, now: Instant, error: E)
    requires
        fresh(created, now),
    ensures
        verdict_of(created, now, Ok::<bool, E>(true)),
        !verdict_of(created, now, Ok::<bool, E>(false)),
        !verdict_of(created, now, Err::<bool, E>(error)),
{
}

/// What is verified is what was signed. Where a document presents what was
/// signed, with a creation date that names an instant, the text put before
/// the signer for checking is the text that was signed, and the signature
/// is the one that was attached; while that instant is fresh, the document
/// is valid exactly when the signer accepts the two.
pub proof fn lemma_signed_is_checked<E>(
    document: Value,
    created: Seq<char>,
    text: Seq<char>,
    signature: Seq<u8>,
    now: Instant,
    checked: Result<bool, E>,
)
    ensures
        presents(document, created, text, signature) ==> match rfc3339_instant(created) {
            Some(instant) => {
                &&& presented(document) matches Some(found)
                &&& found.data == signing_input(created, text)
                &&& found.signature == signature
                &&& found.created == instant
                &&& fresh(instant, now) ==> (verdict_of(found.created, now, checked) <==> checked
                    == Ok::<bool, E>(true))
            },
            None => presented(document) is None,
        },
{
}

/// A signature whose creation date lies twelve hours or more in the past or
/// in the future is invalid, whatever the signer answers.
pub proof fn lemma_outdated_is_invalid<E>(created: Instant, now: Instant, checked: Result<bool, E>)
    requires
        created.since_epoch() - now.since_epoch() >= crate::time::WINDOW_NANOS
            || now.since_epoch() - created.since_epoch() >= crate::time::WINDOW_NANOS,
    ensures
        !verdict_of(created, now, checked),
{
}

} // verus!
