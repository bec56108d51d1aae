//! Digests and text encodings of byte strings.

use crate::text::push_char;
use vstd::prelude::*;

verus! {

/// The SHA-256 digest of a byte string.
pub uninterp spec fn sha256_digest(data: Seq<u8>) -> Seq<u8>;

/// The standard base64 text, with padding, of a byte string.
pub uninterp spec fn base64_text(data: Seq<u8>) -> Seq<char>;

/// The bytes that a standard base64 text stands for, if it is one.
pub uninterp spec fn base64_bytes(text: Seq<char>) -> Option<Seq<u8>>;

/// The lowercase hexadecimal digit of a value below sixteen.
pub open spec fn hex_digit(nibble: int) -> char {
    if nibble < 10 {
        ('0' as u8 + nibble) as u8 as char
    } else {
        ('a' as u8 + (nibble - 10)) as u8 as char
    }
}

/// Two lowercase hexadecimal digits for each byte, high digit first.
pub open spec fn hex_lower(data: Seq<u8>) -> Seq<char>
    decreases data.len(),
{
    if data.len() == 0 {
        Seq::empty()
    } else {
        hex_lower(data.drop_last()).push(hex_digit(data.last() as int / 16)).push(
            hex_digit(data.last() as int % 16),
        )
    }
}

/// `openssl::sha::sha256`: the SHA-256 digest of `data`, always 32 bytes.
#[verifier::external_body]
pub(crate) fn sha256(data: &[u8]) -> (digest: Vec<u8>)
    ensures
        digest@ == sha256_digest(data@),
        digest@.len() == 32,
{
    openssl::sha::sha256(data).to_vec()
}

/// The lowercase hexadecimal digit of a value below sixteen.
fn hex_char(nibble: u8) -> (digit: char)
    requires
        nibble < 16,
    ensures
        digit == hex_digit(nibble as int),
{
    if nibble < 10 {
        (48u8 + nibble) as char
    } else {
        (97u8 + (nibble - 10)) as char
    }
}

/// Write a byte string in lowercase hexadecimal.
pub fn hex_encode(data: &[u8]) -> (text: String)
    ensures
        text@ == hex_lower(data@),
{
    let mut text = String::new();
    let mut i: usize = 0;
    assert(data@.take(0) =~= Seq::empty());
    while i < data.len()
        invariant
            i <= data@.len(),
            text@ == hex_lower(data@.take(i as int)),
        decreases data@.len() - i,
    {
        assert(data@.take(i + 1).drop_last() =~= data@.take(i as int));
        push_char(&mut text, hex_char(data[i] / 16));
        push_char(&mut text, hex_char(data[i] % 16));
        i += 1;
    }
    assert(data@.take(data@.len() as int) =~= data@);
    text
}

/// `base64::encode`: the standard base64 text of `data`, which
/// `base64::decode` turns back into `data`.
#[verifier::external_body]
pub(crate) fn base64_encode(data: &[u8]) -> (text: String)
    ensures
        text@ == base64_text(data@),
        base64_bytes(text@) == Some(data@),
{
    base64::encode(data)
}

/// `base64::decode`: the bytes of a standard base64 text, `None` where the
/// crate reports a decoding error.
#[verifier::external_body]
pub(crate) fn base64_decode(text: &str) -> (data: Option<Vec<u8>>)
    ensures
        data is Some == base64_bytes(text@) is Some,
        data matches Some(bytes) ==> bytes@ == base64_bytes(text@).unwrap(),
{
    match base64::decode(text) {
        Ok(bytes) => Some(bytes),
        Err(_) => None,
    }
}

/// The hexadecimal SHA-256 digest of a text's UTF-8 bytes.
pub open spec fn hash_of(data: Seq<char>) -> Seq<char> {
    hex_lower(sha256_digest(vstd::utf8::encode_utf8(data)))
}

/// Hash a text: the SHA-256 digest of its bytes, in lowercase hexadecimal.
pub fn hash(data: &str) -> (digest: String)
    ensures
        digest@ == hash_of(data@),
        digest@.len() == 64,
{
    let raw = sha256(data.as_bytes());
    proof {
        lemma_hex_lower_len(raw@);
    }
    hex_encode(raw.as_slice())
}

/// A hexadecimal text is twice as long as the bytes it shows.
pub proof fn lemma_hex_lower_len(data: Seq<u8>)
    ensures
        hex_lower(data).len() == 2 * data.len(),
    decreases data.len(),
{
    if data.len() > 0 {
        lemma_hex_lower_len(data.drop_last());
    }
}

} // verus!
