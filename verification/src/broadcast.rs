//! Fan-out of a signed activity: which inboxes receive it, and what is sent
//! to each.

use crate::activity_pub::{context, context_value};
use crate::json::{
    is_null, is_object, json_is_null, json_is_object, json_text, json_with, set_member, to_text,
};
use crate::request::{
    default_headers, digest_of, headers_at, signature, signature_value, signed_names, with_header,
    Digest, Headers,
};
use crate::sign::{sign_at, signed_document, Signer};
use crate::text::{copy_text, has_text, texts};
use crate::time::{now_http_date, now_rfc3339};
use crate::users::User;
use serde_json::Value;
use vstd::prelude::*;

verus! {

/// A list without its repetitions: each value where it first occurs.
pub open spec fn first_occurrences<T>(list: Seq<T>) -> Seq<T>
    decreases list.len(),
{
    if list.len() == 0 {
        Seq::empty()
    } else {
        let kept = first_occurrences(list.drop_last());
        if kept.contains(list.last()) {
            kept
        } else {
            kept.push(list.last())
        }
    }
}

/// The inboxes of the recipients that are not of this instance, one for each
/// of them and in their order: the shared inbox of a recipient's instance
/// where it has one, the recipient's own inbox otherwise.
pub open spec fn remote_inboxes(recipients: Seq<User>, local_instance: i32) -> Seq<Seq<char>>
    decreases recipients.len(),
{
    if recipients.len() == 0 {
        Seq::empty()
    } else {
        let before = remote_inboxes(recipients.drop_last(), local_instance);
        if recipients.last().instance_id == local_instance {
            before
        } else {
            before.push(recipients.last().preferred_inbox()@)
        }
    }
}

/// The endpoints that a broadcast delivers to.
pub open spec fn endpoints(recipients: Seq<User>, local_instance: i32) -> Seq<Seq<char>> {
    first_occurrences(remote_inboxes(recipients, local_instance))
}

/// No value occurs twice among the first occurrences, and they hold the
/// same values as the list.
pub proof fn lemma_first_occurrences<T>(list: Seq<T>)
    ensures
        first_occurrences(list).no_duplicates(),
        forall|value: T| first_occurrences(list).contains(value) <==> list.contains(value),
    decreases list.len(),
{
    let kept = first_occurrences(list);
    if list.len() > 0 {
        let shorter = list.drop_last();
        let before = first_occurrences(shorter);
        lemma_first_occurrences(shorter);
        assert forall|value: T| kept.contains(value) <==> list.contains(value) by {
            if list.contains(value) {
                let i = choose|i: int| 0 <= i < list.len() && list[i] == value;
                if i < list.len() - 1 {
                    assert(shorter[i] == value);
                    assert(shorter.contains(value));
                    assert(before.contains(value));
                    let j = choose|j: int| 0 <= j < before.len() && before[j] == value;
                    assert(kept[j] == value);
                } else if !before.contains(list.last()) {
                    assert(kept[kept.len() - 1] == value);
                }
            }
            if kept.contains(value) {
                let j = choose|j: int| 0 <= j < kept.len() && kept[j] == value;
                if j < before.len() {
                    assert(before[j] == value);
                    assert(before.contains(value));
                    assert(shorter.contains(value));
                    let i = choose|i: int| 0 <= i < shorter.len() && shorter[i] == value;
                    assert(list[i] == value);
                } else {
                    assert(list[list.len() - 1] == value);
                }
            }
        }
    }
}

/// Every recipient of another instance has its inbox among the remote
/// inboxes, and each of those is the inbox of such a recipient.
pub proof fn lemma_remote_inboxes(recipients: Seq<User>, local_instance: i32)
    ensures
        forall|i: int|
            0 <= i < recipients.len() && recipients[i].instance_id != local_instance
                ==> remote_inboxes(recipients, local_instance).contains(
                #[trigger] recipients[i].preferred_inbox()@,
            ),
        forall|inbox: Seq<char>| #[trigger]
            remote_inboxes(recipients, local_instance).contains(inbox) ==> exists|i: int|
                0 <= i < recipients.len() && recipients[i].instance_id != local_instance
                    && #[trigger] recipients[i].preferred_inbox()@ == inbox,
    decreases recipients.len(),
{
    let all = remote_inboxes(recipients, local_instance);
    if recipients.len() > 0 {
        let shorter = recipients.drop_last();
        let before = remote_inboxes(shorter, local_instance);
        lemma_remote_inboxes(shorter, local_instance);
        assert forall|i: int|
            0 <= i < recipients.len() && recipients[i].instance_id
                != local_instance implies all.contains(
            #[trigger] recipients[i].preferred_inbox()@,
        ) by {
            if i < recipients.len() - 1 {
                assert(shorter[i] == recipients[i]);
                let inbox = shorter[i].preferred_inbox()@;
                assert(before.contains(inbox));
                let j = choose|j: int| 0 <= j < before.len() && before[j] == inbox;
                assert(all[j] == inbox);
            } else {
                assert(all[all.len() - 1] == recipients[i].preferred_inbox()@);
            }
        }
        assert forall|inbox: Seq<char>| #[trigger] all.contains(inbox) implies exists|i: int|
            0 <= i < recipients.len() && recipients[i].instance_id != local_instance
                && #[trigger] recipients[i].preferred_inbox()@ == inbox by {
            let j = choose|j: int| 0 <= j < all.len() && all[j] == inbox;
            if j < before.len() {
                assert(before[j] == inbox);
                assert(before.contains(inbox));
                let i = choose|i: int|
                    0 <= i < shorter.len() && shorter[i].instance_id != local_instance
                        && #[trigger] shorter[i].preferred_inbox()@ == inbox;
                assert(recipients[i] == shorter[i]);
            } else {
                let last = recipients.len() - 1;
                assert(recipients[last].preferred_inbox()@ == inbox);
            }
        }
    }
}

/// A list of texts without the texts that occurred before, in the order of
/// the list.
pub fn unique(list: &Vec<String>) -> (kept: Vec<String>)
    ensures
        texts(kept@) == first_occurrences(texts(list@)),
{
    let mut kept: Vec<String> = Vec::new();
    let mut i: usize = 0;
    assert(texts(list@).take(0) =~= Seq::empty());
    assert(texts(kept@) =~= Seq::empty());
    while i < list.len()
        invariant
            i <= list@.len(),
            texts(kept@) == first_occurrences(texts(list@).take(i as int)),
        decreases list@.len() - i,
    {
        let ghost before = texts(kept@);
        assert(texts(list@).take(i + 1).drop_last() =~= texts(list@).take(i as int));
        if !has_text(&kept, list[i].as_str()) {
            kept.push(copy_text(&list[i]));
            assert(texts(kept@) =~= before.push(list@[i as int]@));
        }
        i += 1;
    }
    assert(texts(list@).take(list@.len() as int) =~= texts(list@));
    kept
}

/// The inbox of every recipient of another instance, in the order of the
/// recipients.
fn all_remote_inboxes(recipients: &Vec<User>, local_instance: i32) -> (boxes: Vec<String>)
    ensures
        texts(boxes@) == remote_inboxes(recipients@, local_instance),
{
    let mut boxes: Vec<String> = Vec::new();
    let mut i: usize = 0;
    assert(recipients@.take(0) =~= Seq::empty());
    assert(texts(boxes@) =~= Seq::empty());
    while i < recipients.len()
        invariant
            i <= recipients@.len(),
            texts(boxes@) == remote_inboxes(recipients@.take(i as int), local_instance),
        decreases recipients@.len() - i,
    {
        let ghost before = boxes@;
        assert(recipients@.take(i + 1).drop_last() =~= recipients@.take(i as int));
        assert(recipients@.take(i + 1).last() == recipients@[i as int]);
        let recipient = &recipients[i];
        if !recipient.is_local(local_instance) {
            let inbox = match &recipient.shared_inbox_url {
                Some(url) => copy_text(url),
                None => copy_text(&recipient.inbox_url),
            };
            boxes.push(inbox);
            assert(texts(boxes@) =~= texts(before).push(recipient.preferred_inbox()@));
        }
        i += 1;
    }
    assert(recipients@.take(recipients@.len() as int) =~= recipients@);
    boxes
}

/// The endpoints to deliver to. Recipients of this instance get no delivery;
/// every other recipient is reached through the shared inbox of its instance
/// where there is one, and through its own inbox otherwise; and no endpoint
/// is listed twice, however many recipients it serves.
pub fn inboxes(recipients: &Vec<User>, local_instance: i32) -> (boxes: Vec<String>)
    ensures
        texts(boxes@) == endpoints(recipients@, local_instance),
        texts(boxes@).no_duplicates(),
        forall|i: int|
            0 <= i < recipients@.len() && recipients@[i].instance_id != local_instance
                ==> texts(boxes@).contains(#[trigger] recipients@[i].preferred_inbox()@),
        forall|k: int|
            0 <= k < boxes@.len() ==> exists|i: int|
                0 <= i < recipients@.len() && recipients@[i].instance_id != local_instance
                    && #[trigger] recipients@[i].preferred_inbox()@ == (#[trigger] boxes@[k])@,
{
    let all = all_remote_inboxes(recipients, local_instance);
    let boxes = unique(&all);
    proof {
        let remote = remote_inboxes(recipients@, local_instance);
        lemma_first_occurrences(remote);
        lemma_remote_inboxes(recipients@, local_instance);
        assert forall|k: int| 0 <= k < boxes@.len() implies exists|i: int|
            0 <= i < recipients@.len() && recipients@[i].instance_id != local_instance
                && #[trigger] recipients@[i].preferred_inbox()@ == (#[trigger] boxes@[k])@ by {
            assert(texts(boxes@)[k] == boxes@[k]@);
            assert(texts(boxes@).contains(boxes@[k]@));
            assert(remote.contains(boxes@[k]@));
        }
    }
    boxes
}

/// One request to make: the activity, signed, for one inbox.
#[derive(Clone, Debug, PartialEq, Eq)]
pub struct Delivery {
    /// The endpoint to post to.
    pub inbox: String,
    /// The body of the request: the signed activity as JSON text.
    pub body: String,
    /// The headers of the request, with the digest of the body and the
    /// signature over all other headers.
    pub headers: Headers,
}

/// Why nothing can be delivered.
#[derive(Debug, Copy, Clone, PartialEq, Eq, Structural)]
pub enum BroadcastError {
    /// The activity is no JSON object.
    NotAnObject,
    /// The sender could not sign the activity.
    Signature,
    /// The sender could not sign the headers of a request.
    RequestSignature,
}

/// The member of an activity that holds its context.
pub const CONTEXT_KEY: &'static str = "@context";

/// The headers of a request before it is signed: the headers that every
/// request carries and the digest of the body.
pub open spec fn digested_headers(date: Seq<char>, body: Seq<char>) -> Seq<(Seq<char>, Seq<char>)> {
    with_header(default_headers(date), "digest"@, digest_of(body))
}

/// The headers of a signed request.
pub open spec fn signed_headers(
    date: Seq<char>,
    body: Seq<char>,
    key_id: Seq<char>,
    signature: Seq<u8>,
) -> Seq<(Seq<char>, Seq<char>)> {
    with_header(
        digested_headers(date, body),
        "signature"@,
        signature_value(key_id, signed_names(digested_headers(date, body)), signature),
    )
}

/// Whether headers are those of a signed request with a given date and
/// body, whatever the key and the signature.
pub open spec fn are_signed_headers(
    headers: Seq<(Seq<char>, Seq<char>)>,
    date: Seq<char>,
    body: Seq<char>,
) -> bool {
    exists|key_id: Seq<char>, signature: Seq<u8>|
        headers == #[trigger] signed_headers(date, body, key_id, signature)
}

/// The activity as it is sent: with the context, then signed.
pub open spec fn outgoing(activity: Value, key_id: Seq<char>, created: Seq<char>, signature: Seq<u8>)
    -> Value {
    signed_document(json_with(activity, CONTEXT_KEY@, context_value()), key_id, created, signature)
}

/// Whether every delivery has the text of a document as its body.
pub open spec fn carry(list: Seq<Delivery>, document: Value) -> bool {
    forall|i: int| 0 <= i < list.len() ==> (#[trigger] list[i]).body@ == json_text(document)
}

/// What preparing the deliveries of an activity gives. An activity that is
/// neither a JSON object nor `null` cannot be sent, and nothing else fails
/// in this way. Where the sender signs the activity and the headers of each
/// request, there is one delivery for each endpoint of the recipients, in
/// their order: all carry the activity with the context and the sender's
/// signature, each with the headers of a signed request of its own. The
/// headers of a request are signed only where there is an endpoint.
pub open spec fn prepared(
    activity: Value,
    recipients: Seq<User>,
    local_instance: i32,
    created: Seq<char>,
    date: Seq<char>,
    deliveries: Result<Vec<Delivery>, BroadcastError>,
) -> bool {
    match deliveries {
        Ok(list) => {
            &&& json_is_object(activity) || json_is_null(activity)
            &&& list@.len() == endpoints(recipients, local_instance).len()
            &&& exists|key_id: Seq<char>, signature: Seq<u8>|
                carry(list@, #[trigger] outgoing(activity, key_id, created, signature))
            &&& forall|i: int|
                0 <= i < list@.len() ==> (#[trigger] list@[i]).inbox@ == endpoints(
                    recipients,
                    local_instance,
                )[i]
            &&& forall|i: int|
                0 <= i < list@.len() ==> are_signed_headers(
                    (#[trigger] list@[i]).headers@,
                    date,
                    list@[i].body@,
                )
        },
        Err(BroadcastError::NotAnObject) => !json_is_object(activity) && !json_is_null(activity),
        Err(BroadcastError::Signature) => json_is_object(activity) || json_is_null(activity),
        Err(BroadcastError::RequestSignature) => (json_is_object(activity) || json_is_null(
            activity,
        )) && endpoints(recipients, local_instance).len() > 0,
    }
}

/// The headers of a request with a given body, dated and signed: the
/// headers that every request carries and the digest of the body, then the
/// signature that the sender makes over them. Only the sender's failure to
/// sign makes it fail.
pub fn request_headers<S: Signer>(sender: &S, body: &str, date: &str) -> (headers: Result<
    Headers,
    BroadcastError,
>)
    ensures
        headers matches Ok(h) ==> are_signed_headers(h@, date@, body@),
        headers matches Err(error) ==> error == BroadcastError::RequestSignature,
{
    let mut headers = headers_at(date);
    proof {
        reveal_strlit("Digest");
        reveal_strlit("digest");
        reveal_strlit("Signature");
        reveal_strlit("signature");
        assert(crate::text::lowercase("Digest"@) =~= "digest"@);
        assert(crate::text::lowercase("Signature"@) =~= "signature"@);
    }
    headers.insert("Digest", Digest::digest(body));
    match signature(sender, &headers) {
        Ok(value) => {
            proof {
                let (key_id, signed) = choose|key_id: Seq<char>, signed: Seq<u8>|
                    value@ == signature_value(key_id, signed_names(headers@), signed);
                assert(with_header(headers@, "signature"@, value@) == signed_headers(
                    date@,
                    body@,
                    key_id,
                    signed,
                ));
            }
            headers.insert("Signature", value);
            Ok(headers)
        },
        Err(_) => Err(BroadcastError::RequestSignature),
    }
}

/// Prepare the deliveries of an activity, dated as given: one for each
/// endpoint of the recipients, all with the same body, each with headers
/// and a signature of its own. The activity gets the context and the
/// sender's signature first.
pub fn prepare<S: Signer>(
    sender: &S,
    activity: Value,
    recipients: &Vec<User>,
    local_instance: i32,
    created: &str,
    date: &str,
) -> (deliveries: Result<Vec<Delivery>, BroadcastError>)
    ensures
        prepared(activity, recipients@, local_instance, created@, date@, deliveries),
{
    let mut document = activity;
    if !(is_object(&document) || is_null(&document)) {
        return Err(BroadcastError::NotAnObject);
    }
    set_member(&mut document, CONTEXT_KEY, context());
    match sign_at(&mut document, sender, created) {
        Ok(()) => {},
        Err(_) => { return Err(BroadcastError::Signature); },
    }
    let body = to_text(&document);
    let boxes = inboxes(recipients, local_instance);
    let mut list: Vec<Delivery> = Vec::new();
    let mut i: usize = 0;
    while i < boxes.len()
        invariant
            i <= boxes@.len(),
            list@.len() == i,
            forall|j: int| 0 <= j < i ==> (#[trigger] list@[j]).body@ == body@,
            forall|j: int| 0 <= j < i ==> (#[trigger] list@[j]).inbox@ == boxes@[j]@,
            forall|j: int|
                0 <= j < i ==> are_signed_headers(
                    (#[trigger] list@[j]).headers@,
                    date@,
                    list@[j].body@,
                ),
            json_is_object(activity) || json_is_null(activity),
            texts(boxes@) == endpoints(recipients@, local_instance),
        decreases boxes@.len() - i,
    {
        let headers = match request_headers(sender, body.as_str(), date) {
            Ok(headers) => headers,
            Err(error) => { return Err(error); },
        };
        list.push(Delivery { inbox: copy_text(&boxes[i]), body: copy_text(&body), headers });
        i += 1;
    }
    proof {
        let (key_id, signature) = choose|key_id: Seq<char>, signature: Seq<u8>|
            document == signed_document(
                json_with(activity, CONTEXT_KEY@, context_value()),
                key_id,
                created@,
                signature,
            );
        assert(carry(list@, outgoing(activity, key_id, created@, signature)));
        assert forall|i: int| 0 <= i < list@.len() implies (#[trigger] list@[i]).inbox@
            == endpoints(recipients@, local_instance)[i] by {
            assert(texts(boxes@)[i] == boxes@[i]@);
        }
    }
    Ok(list)
}

/// Prepare the deliveries of an activity now. Whoever makes the requests
/// makes each of them on its own: one that fails does not hold back the
/// others.
pub fn broadcast<S: Signer>(
    sender: &S,
    activity: Value,
    recipients: &Vec<User>,
    local_instance: i32,
) -> (deliveries: Result<Vec<Delivery>, BroadcastError>)
    ensures
        exists|created: Seq<char>, date: Seq<char>| #[trigger]
            prepared(activity, recipients@, local_instance, created, date, deliveries),
{
    let created = now_rfc3339();
    let date = now_http_date();
    prepare(sender, activity, recipients, local_instance, created.as_str(), date.as_str())
}

} // verus!
