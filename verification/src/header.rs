//! Block headers and their decoding from the JSON text of a notification.

use vstd::prelude::*;
use crate::error::ChainError;
use crate::hash::{hash_from_prefixed, number_from_prefixed, prefixed_hash, prefixed_number};

verus! {

/// A block header, as far as the client reads it.
#[derive(Clone, Copy, Debug, PartialEq, Eq)]
pub struct Header {
    pub parent_hash: crate::hash::Hash,
    pub number: u32,
    pub state_root: crate::hash::Hash,
    pub extrinsics_root: crate::hash::Hash,
}

/// What a header holds, as plain values.
pub ghost struct HeaderModel {
    pub parent_hash: Seq<u8>,
    pub number: u32,
    pub state_root: Seq<u8>,
    pub extrinsics_root: Seq<u8>,
}

impl View for Header {
    type V = HeaderModel;

    open spec fn view(&self) -> HeaderModel {
        HeaderModel {
            parent_hash: self.parent_hash@,
            number: self.number,
            state_root: self.state_root@,
            extrinsics_root: self.extrinsics_root@,
        }
    }
}

/// `serde_json::Value`, a parsed JSON document; nothing inside it is read
/// but through the calls below.
#[verifier::external_type_specification]
#[verifier::external_body]
pub struct ExJsonValue(serde_json::Value);

/// The members of the JSON document `text` whose values are strings, each by
/// its key and as the bytes of its value; `None` where `text` is no JSON
/// document. A document that is no object has no members.
pub uninterp spec fn document_members(text: Seq<char>) -> Option<Map<Seq<char>, Seq<u8>>>;

/// The members of the JSON value `value` whose values are strings, each by its
/// key and as the bytes of its value.
pub uninterp spec fn text_members(value: serde_json::Value) -> Map<Seq<char>, Seq<u8>>;

/// Calls `serde_json::from_str` for a `serde_json::Value`: it fails exactly
/// when `text` is no JSON document, and the value it gives holds the members
/// of that document.
#[verifier::external_body]
fn parse_document(text: &str) -> (parsed: Option<serde_json::Value>)
    ensures
        parsed is Some <==> document_members(text@) is Some,
        parsed matches Some(value) ==> document_members(text@) == Some(text_members(value)),
{
    match serde_json::from_str::<serde_json::Value>(text) {
        Ok(value) => Some(value),
        Err(_) => None,
    }
}

/// Calls `serde_json::Value::get` with a key: it gives the member of an
/// object under that key, and nothing for a missing key or a value that is no
/// object. A member that is a string is handed out as its bytes.
#[verifier::external_body]
fn text_member(value: &serde_json::Value, key: &str) -> (member: Option<Vec<u8>>)
    ensures
        member is Some <==> text_members(*value).contains_key(key@),
        member matches Some(bytes) ==> bytes@ == text_members(*value)[key@],
{
    match value.get(key) {
        Some(serde_json::Value::String(s)) => Some(s.as_bytes().to_vec()),
        _ => None,
    }
}

/// The header that the four fields spell, each a hex string with a two-byte
/// prefix; `None` where one of them does not decode.
pub open spec fn header_of_fields(
    parent_hash: Seq<u8>,
    number: Seq<u8>,
    state_root: Seq<u8>,
    extrinsics_root: Seq<u8>,
) -> Option<HeaderModel> {
    if prefixed_hash(parent_hash) is Some && prefixed_number(number) is Some && prefixed_hash(
        state_root,
    ) is Some && prefixed_hash(extrinsics_root) is Some {
        Some(
            HeaderModel {
                parent_hash: prefixed_hash(parent_hash).unwrap(),
                number: prefixed_number(number).unwrap(),
                state_root: prefixed_hash(state_root).unwrap(),
                extrinsics_root: prefixed_hash(extrinsics_root).unwrap(),
            },
        )
    } else {
        None
    }
}

/// The header that a JSON document with the given string members spells:
/// all of `parentHash`, `number`, `stateRoot` and `extrinsicsRoot` must be
/// there and decode.
pub open spec fn header_of_members(members: Map<Seq<char>, Seq<u8>>) -> Option<HeaderModel> {
    if members.contains_key("parentHash"@) && members.contains_key("number"@)
        && members.contains_key("stateRoot"@) && members.contains_key("extrinsicsRoot"@) {
        header_of_fields(
            members["parentHash"@],
            members["number"@],
            members["stateRoot"@],
            members["extrinsicsRoot"@],
        )
    } else {
        None
    }
}

/// The header that the notification `payload` spells, if it spells one.
pub open spec fn header_of_payload(payload: Seq<char>) -> Option<HeaderModel> {
    match document_members(payload) {
        Some(members) => header_of_members(members),
        None => None,
    }
}

/// Whether `outcome` is what decoding `payload` gives: the header it spells,
/// or else the payload itself, marked as malformed.
pub open spec fn decodes_to(payload: Seq<char>, outcome: Result<Header, ChainError>) -> bool {
    match header_of_payload(payload) {
        Some(model) => outcome matches Ok(header) && header@ == model,
        None => outcome matches Err(ChainError::Malformed(text)) && text@ == payload,
    }
}

/// Builds a header from its four fields in their text form.
pub fn header_from_fields(
    parent_hash: &[u8],
    number: &[u8],
    state_root: &[u8],
    extrinsics_root: &[u8],
) -> (header: Option<Header>)
    ensures
        header is Some <==> header_of_fields(
            parent_hash@,
            number@,
            state_root@,
            extrinsics_root@,
        ) is Some,
        header matches Some(h) ==> h@ == header_of_fields(
            parent_hash@,
            number@,
            state_root@,
            extrinsics_root@,
        ).unwrap(),
{
    let parent = match hash_from_prefixed(parent_hash) {
        Some(hash) => hash,
        None => {
            return None;
        },
    };
    let height = match number_from_prefixed(number) {
        Some(n) => n,
        None => {
            return None;
        },
    };
    let state = match hash_from_prefixed(state_root) {
        Some(hash) => hash,
        None => {
            return None;
        },
    };
    let extrinsics = match hash_from_prefixed(extrinsics_root) {
        Some(hash) => hash,
        None => {
            return None;
        },
    };
    Some(Header { parent_hash: parent, number: height, state_root: state, extrinsics_root: extrinsics })
}

/// Reads the four fields of a header out of a parsed notification.
fn header_from_value(value: &serde_json::Value) -> (header: Option<Header>)
    ensures
        header is Some <==> header_of_members(text_members(*value)) is Some,
        header matches Some(h) ==> h@ == header_of_members(text_members(*value)).unwrap(),
{
    let parent = match text_member(value, "parentHash") {
        Some(bytes) => bytes,
        None => {
            return None;
        },
    };
    let number = match text_member(value, "number") {
        Some(bytes) => bytes,
        None => {
            return None;
        },
    };
    let state = match text_member(value, "stateRoot") {
        Some(bytes) => bytes,
        None => {
            return None;
        },
    };
    let extrinsics = match text_member(value, "extrinsicsRoot") {
        Some(bytes) => bytes,
        None => {
            return None;
        },
    };
    header_from_fields(
        parent.as_slice(),
        number.as_slice(),
        state.as_slice(),
        extrinsics.as_slice(),
    )
}

/// Decodes the text of one finalized-header notification. A payload that is
/// no JSON document, lacks a field or holds one that does not decode is
/// refused as malformed, and the error carries the payload.
pub fn decode_header(payload: &str) -> (outcome: Result<Header, ChainError>)
    ensures
        decodes_to(payload@, outcome),
{
    let header = match parse_document(payload) {
        Some(value) => header_from_value(&value),
        None => None,
    };
    match header {
        Some(h) => Ok(h),
        None => Err(ChainError::Malformed(payload.to_owned())),
    }
}

} // verus!
