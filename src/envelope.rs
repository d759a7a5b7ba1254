use vstd::prelude::*;
use vstd::string::StringSliceAdditionalSpecFns;

use serde_json::Value;

use crate::error::ClientError;

verus! {

#[verifier::external_type_specification]
#[verifier::external_body]
pub struct ExValue(Value);

#[verifier::external_type_specification]
#[verifier::external_body]
pub struct ExJsonError(serde_json::Error);

/// The top-level key whose presence marks an expired session.
pub const EXPIRY_MARKER: &'static str = "redirect";

/// The content type under which a body is parsed strictly as JSON.
pub const JSON_CONTENT_TYPE: &'static str = "application/json";

/// Whether serde_json accepts `bytes` as a JSON document.
pub uninterp spec fn json_parses(bytes: Seq<u8>) -> bool;

/// The member names of a JSON object value; empty for any other value.
pub uninterp spec fn json_members(v: Value) -> Set<Seq<char>>;

/// The top-level member names of the JSON document `bytes`: the keys of an
/// object, none for any other document.
pub uninterp spec fn json_keys_of(bytes: Seq<u8>) -> Set<Seq<char>>;

/// Relies on `serde_json::from_slice::<Value>`: it succeeds exactly on the
/// byte strings that are a JSON document, and the value has that document's
/// top-level members.
#[verifier::external_body]
fn parse_json(bytes: &[u8]) -> (r: Result<Value, serde_json::Error>)
    ensures
        r is Ok <==> json_parses(bytes@),
        r matches Ok(v) ==> json_members(v) == json_keys_of(bytes@),
{
    serde_json::from_slice::<Value>(bytes)
}

/// Relies on `Value::get` with a `&str` index: the member of that name of an
/// object, `None` for a missing member or any other value.
#[verifier::external_body]
fn has_key(v: &Value, key: &str) -> (r: bool)
    ensures
        r == json_members(*v).contains(key@),
{
    v.get(key).is_some()
}

/// Whether a value is the JSON `null`.
pub uninterp spec fn json_is_null(v: Value) -> bool;

/// Relies on `Value::default`, which is `Value::Null`: the JSON `null`, with no members.
#[verifier::external_body]
fn null_value() -> (r: Value)
    ensures
        json_is_null(r),
        json_members(r) == Set::<Seq<char>>::empty(),
{
    Value::default()
}

/// The parsed payload of one response, with whether it carries the expiry marker.
pub struct Envelope {
    value: Value,
    expired: bool,
}

impl Envelope {
    pub closed spec fn is_expired(&self) -> bool {
        self.expired
    }

    /// Whether the payload has the expiry marker at its top level.
    pub fn expired(&self) -> (r: bool)
        ensures
            r == self.is_expired(),
    {
        self.expired
    }

    /// The parsed payload.
    pub closed spec fn payload(&self) -> Value {
        self.value
    }

    pub fn value(&self) -> (r: &Value)
        ensures
            *r == self.payload(),
    {
        &self.value
    }

    pub fn into_value(self) -> (r: Value)
        ensures
            r == self.payload(),
    {
        self.value
    }
}

/// Whether a content-type header declares JSON; a missing header counts as plain text.
pub open spec fn declares_json(content_type: Option<Seq<u8>>) -> bool {
    match content_type {
        Some(t) => t == JSON_CONTENT_TYPE.spec_bytes(),
        None => false,
    }
}

/// The raw bytes of an optional header.
pub open spec fn header_view(header: Option<&[u8]>) -> Option<Seq<u8>> {
    match header {
        Some(t) => Some(t@),
        None => None,
    }
}

/// Tests whether the content-type header (its raw bytes) is exactly `application/json`.
pub fn is_json_content(content_type: Option<&[u8]>) -> (r: bool)
    ensures
        r == declares_json(header_view(content_type)),
{
    let expected: &[u8] = JSON_CONTENT_TYPE.as_bytes();
    match content_type {
        None => false,
        Some(t) => {
            if t.len() != expected.len() {
                return false;
            }
            let mut i: usize = 0;
            while i < t.len()
                invariant
                    i <= t@.len(),
                    t@.len() == expected@.len(),
                    expected@ == JSON_CONTENT_TYPE.spec_bytes(),
                    content_type == Some(t),
                    forall|k: int| 0 <= k < i ==> t@[k] == expected@[k],
                decreases t@.len() - i,
            {
                if t[i] != expected[i] {
                    assert(t@[i as int] != expected@[i as int]);
                    assert(t@ != expected@);
                    return false;
                }
                i += 1;
            }
            assert(t@ =~= expected@);
            true
        },
    }
}

/// Turns a response into an envelope. A body declared as JSON must parse,
/// else the response counts as a transport failure. Any other body is parsed
/// on a best-effort basis: one that does not parse becomes `null`, which has
/// no expiry marker.
pub fn read_envelope(content_type: Option<&[u8]>, body: &[u8]) -> (r: Result<Envelope, ClientError>)
    ensures
        r is Err <==> declares_json(header_view(content_type)) && !json_parses(body@),
        r is Err ==> r->Err_0 == ClientError::Network,
        r matches Ok(e) ==> e.is_expired() == json_members(e.payload()).contains(EXPIRY_MARKER@),
        r matches Ok(e) ==> json_parses(body@) ==> json_members(e.payload()) == json_keys_of(body@),
        json_parses(body@) ==> (r is Ok && r->Ok_0.is_expired() == json_keys_of(body@).contains(EXPIRY_MARKER@)),
        !json_parses(body@) && !declares_json(header_view(content_type)) ==> {
            &&& json_is_null(r->Ok_0.payload())
            &&& json_members(r->Ok_0.payload()) == Set::<Seq<char>>::empty()
            &&& !r->Ok_0.is_expired()
        },
{
    let strict = is_json_content(content_type);
    match parse_json(body) {
        Ok(value) => {
            let expired = has_key(&value, EXPIRY_MARKER);
            Ok(Envelope { value, expired })
        },
        Err(_) => {
            if strict {
                Err(ClientError::Network)
            } else {
                Ok(Envelope { value: null_value(), expired: false })
            }
        },
    }
}

} // verus!
