//! What one HTTP exchange came to, and how its reply is read: as raw bytes,
//! as text or as JSON. The exchange itself is made by the caller; nothing
//! here retries.

use vstd::prelude::*;
use vstd::utf8::{decode_utf8, valid_utf8};
use crate::error::Failure;

verus! {

#[verifier::external_type_specification]
#[verifier::external_body]
pub struct ExFromUtf8Error(std::string::FromUtf8Error);

#[verifier::external_type_specification]
#[verifier::external_body]
pub struct ExJsonValue(serde_json::Value);

#[verifier::external_type_specification]
#[verifier::external_body]
pub struct ExJsonError(serde_json::Error);

/// The outcome of one GET request, as the caller observed it.
pub enum Reply {
    /// No response arrived: connection refused, timeout, name resolution.
    Unreachable,
    /// The server answered. `body` is `None` where the body could not be
    /// read to its end.
    Answered { status: u16, body: Option<Vec<u8>> },
}

/// The mathematical value of a [`Reply`].
pub enum ReplyView {
    Unreachable,
    Answered { status: u16, body: Option<Seq<u8>> },
}

impl View for Reply {
    type V = ReplyView;

    open spec fn view(&self) -> ReplyView {
        match self {
            Reply::Unreachable => ReplyView::Unreachable,
            Reply::Answered { status, body } => ReplyView::Answered {
                status: *status,
                body: match body {
                    Some(bytes) => Some(bytes@),
                    None => None,
                },
            },
        }
    }
}

/// A status in 200..=299.
pub open spec fn success(status: u16) -> bool {
    200 <= status <= 299
}

/// Whether `status` reports success.
pub fn is_success(status: u16) -> (r: bool)
    ensures
        r == success(status),
{
    200 <= status && status <= 299
}

/// The body of a reply, whatever its status.
pub open spec fn body_of(reply: ReplyView) -> Result<Seq<u8>, Failure> {
    match reply {
        ReplyView::Unreachable => Err(Failure::Network),
        ReplyView::Answered { status, body } => match body {
            Some(bytes) => Ok(bytes),
            None => Err(Failure::Network),
        },
    }
}

/// The bytes that a reply delivers: a missing response is a network
/// failure, a status outside 200..=299 a status failure whether or not a
/// body came with it, and a body that broke off a network failure.
pub open spec fn bytes_of(reply: ReplyView) -> Result<Seq<u8>, Failure> {
    match reply {
        ReplyView::Unreachable => Err(Failure::Network),
        ReplyView::Answered { status, body } => if !success(status) {
            Err(Failure::Status(status))
        } else {
            body_of(reply)
        },
    }
}

/// The text that a reply delivers: its body, which must be UTF-8.
pub open spec fn text_of(reply: ReplyView) -> Result<Seq<char>, Failure> {
    match body_of(reply) {
        Ok(bytes) => if valid_utf8(bytes) {
            Ok(decode_utf8(bytes))
        } else {
            Err(Failure::Decode)
        },
        Err(failure) => Err(failure),
    }
}

/// The document that `serde_json` reads from `bytes`, or `None` where the
/// bytes are no JSON document.
pub uninterp spec fn json_document(bytes: Seq<u8>) -> Option<serde_json::Value>;

/// The JSON document that a reply delivers: the one read from its body,
/// which must be one JSON document.
pub open spec fn json_of(reply: ReplyView) -> Result<serde_json::Value, Failure> {
    match body_of(reply) {
        Ok(bytes) => match json_document(bytes) {
            Some(document) => Ok(document),
            None => Err(Failure::Decode),
        },
        Err(failure) => Err(failure),
    }
}

/// `String::from_utf8`.
///
/// Trusted: the conversion succeeds exactly on well-formed UTF-8 and then
/// gives the characters that the bytes encode.
#[verifier::external_body]
fn string_from_utf8(bytes: Vec<u8>) -> (r: Result<String, std::string::FromUtf8Error>)
    ensures
        r is Ok <==> valid_utf8(bytes@),
        r matches Ok(text) ==> text@ == decode_utf8(bytes@),
{
    String::from_utf8(bytes)
}

/// `serde_json::from_slice`, reading a `serde_json::Value`.
///
/// Trusted: the result depends on the bytes alone, both whether a document
/// is read and which; `json_document` is the name of it. Nothing is claimed
/// of what the document holds.
#[verifier::external_body]
fn json_from_slice(bytes: &Vec<u8>) -> (r: Result<serde_json::Value, serde_json::Error>)
    ensures
        match r {
            Ok(document) => json_document(bytes@) == Some(document),
            Err(_) => json_document(bytes@) is None,
        },
{
    serde_json::from_slice(bytes.as_slice())
}

/// Takes the body out of a reply.
fn into_body(reply: Reply) -> (r: Result<Vec<u8>, Failure>)
    ensures
        match r {
            Ok(bytes) => body_of(reply@) == Ok::<Seq<u8>, Failure>(bytes@),
            Err(failure) => body_of(reply@) == Err::<Seq<u8>, Failure>(failure),
        },
{
    match reply {
        Reply::Unreachable => Err(Failure::Network),
        Reply::Answered { status: _, body } => match body {
            Some(bytes) => Ok(bytes),
            None => Err(Failure::Network),
        },
    }
}

/// Reads a reply as raw bytes. A status outside 200..=299 is reported as
/// such, apart from transport failures.
pub fn fetch_bytes(reply: Reply) -> (r: Result<Vec<u8>, Failure>)
    ensures
        match r {
            Ok(bytes) => bytes_of(reply@) == Ok::<Seq<u8>, Failure>(bytes@),
            Err(failure) => bytes_of(reply@) == Err::<Seq<u8>, Failure>(failure),
        },
{
    match reply {
        Reply::Unreachable => Err(Failure::Network),
        Reply::Answered { status, body } => {
            if !is_success(status) {
                Err(Failure::Status(status))
            } else {
                match body {
                    Some(bytes) => Ok(bytes),
                    None => Err(Failure::Network),
                }
            }
        },
    }
}

/// Reads a reply as text. A body that is not UTF-8 is a decode failure.
pub fn fetch_text(reply: Reply) -> (r: Result<String, Failure>)
    ensures
        match r {
            Ok(text) => text_of(reply@) == Ok::<Seq<char>, Failure>(text@),
            Err(failure) => text_of(reply@) == Err::<Seq<char>, Failure>(failure),
        },
{
    match into_body(reply) {
        Ok(bytes) => match string_from_utf8(bytes) {
            Ok(text) => Ok(text),
            Err(_) => Err(Failure::Decode),
        },
        Err(failure) => Err(failure),
    }
}

/// Reads a reply as JSON: the document is the one read from the body. A
/// body that is no JSON document is a decode failure.
pub fn fetch_json(reply: Reply) -> (r: Result<serde_json::Value, Failure>)
    ensures
        r == json_of(reply@),
{
    match into_body(reply) {
        Ok(bytes) => match json_from_slice(&bytes) {
            Ok(value) => Ok(value),
            Err(_) => Err(Failure::Decode),
        },
        Err(failure) => Err(failure),
    }
}

} // verus!
