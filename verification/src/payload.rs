//! Service messages as JSON payloads.

use crate::encoding::utf8_text;
use serde_json::Value;
use vstd::prelude::*;
use vstd::utf8::{decode_utf8, valid_utf8};

verus! {

/// A JSON document.
#[verifier::external_type_specification]
#[verifier::external_body]
pub struct ExValue(serde_json::Value);

/// Why a text is not a JSON document.
#[verifier::external_type_specification]
#[verifier::external_body]
pub struct ExJsonError(serde_json::Error);

/// The document that `serde_json::from_str` reads from a text; `None` where it refuses the text.
pub uninterp spec fn json_value(text: Seq<char>) -> Option<Value>;

/// The bytes that `serde_json::to_vec` writes for a document.
pub uninterp spec fn json_bytes(document: Value) -> Seq<u8>;

/// Calls `serde_json::from_str`. The result depends on the text alone.
#[verifier::external_body]
fn parse_json(text: &str) -> (r: Result<Value, serde_json::Error>)
    ensures
        r matches Ok(document) ==> json_value(text@) == Some(document),
        r is Err ==> json_value(text@) is None,
{
    serde_json::from_str(text)
}

/// Calls `serde_json::to_vec`. Writing a document into memory does not fail: its keys are strings
/// and every number has a notation. The bytes depend on the document alone and are UTF-8.
#[verifier::external_body]
fn write_json(document: &Value) -> (r: Result<Vec<u8>, serde_json::Error>)
    ensures
        r is Ok,
        r matches Ok(bytes) ==> bytes@ == json_bytes(*document),
        r matches Ok(bytes) ==> valid_utf8(bytes@),
{
    serde_json::to_vec(document)
}

/// Why a payload holds no message.
#[derive(Debug, Clone, Copy, PartialEq, Eq, Structural)]
pub enum PayloadError {
    /// The packet has no payload.
    Missing,
    /// The payload is not UTF-8.
    NotUtf8,
    /// The text is not a JSON document.
    NotJson,
}

/// What a parsed text means for the message.
pub open spec fn message_of(parsed: Option<Value>) -> Result<Value, PayloadError> {
    match parsed {
        Some(document) => Ok(document),
        None => Err(PayloadError::NotJson),
    }
}

/// The message in a payload.
pub open spec fn payload_message(payload: Option<Seq<u8>>) -> Result<Value, PayloadError> {
    match payload {
        None => Err(PayloadError::Missing),
        Some(bytes) => if valid_utf8(bytes) {
            message_of(json_value(decode_utf8(bytes)))
        } else {
            Err(PayloadError::NotUtf8)
        },
    }
}

/// The bytes of an optional payload.
pub open spec fn payload_bytes(payload: Option<Vec<u8>>) -> Option<Seq<u8>> {
    match payload {
        Some(bytes) => Some(bytes@),
        None => None,
    }
}

/// Accepts a parsed document as the message; a text that is no document is an error.
pub fn accept_document(parsed: Result<Value, serde_json::Error>) -> (r: Result<
    Value,
    PayloadError,
>)
    ensures
        parsed matches Ok(document) ==> r == Ok::<Value, PayloadError>(document),
        parsed is Err ==> r == Err::<Value, PayloadError>(PayloadError::NotJson),
{
    match parsed {
        Ok(document) => Ok(document),
        Err(_) => Err(PayloadError::NotJson),
    }
}

/// Reads the message of a packet from its payload: the payload must be there, be UTF-8 and be a
/// JSON document, and the first of these that fails is the error.
pub fn decode_message(payload: &Option<Vec<u8>>) -> (r: Result<Value, PayloadError>)
    ensures
        r == payload_message(payload_bytes(*payload)),
{
    match payload {
        None => Err(PayloadError::Missing),
        Some(bytes) => match utf8_text(bytes.as_slice()) {
            Ok(text) => accept_document(parse_json(text)),
            Err(_) => Err(PayloadError::NotUtf8),
        },
    }
}

/// Writes a message as the payload of a packet.
pub fn encode_message(message: &Value) -> (r: Vec<u8>)
    ensures
        r@ == json_bytes(*message),
        valid_utf8(r@),
{
    write_json(message).unwrap()
}

/// A payload holds a message exactly when it is there, is UTF-8 and reads as a document, and the
/// message is that document, whatever its size. Otherwise the first of these that fails is the
/// error.
pub proof fn law_payload_holds_its_document(payload: Option<Vec<u8>>, document: Value)
    ensures
        payload is None ==> payload_message(payload_bytes(payload)) == Err::<Value, PayloadError>(
            PayloadError::Missing,
        ),
        payload matches Some(bytes) ==> {
            let message = payload_message(payload_bytes(payload));
            &&& !valid_utf8(bytes@) ==> message == Err::<Value, PayloadError>(PayloadError::NotUtf8)
            &&& valid_utf8(bytes@) && json_value(decode_utf8(bytes@)) is None ==> message == Err::<
                Value,
                PayloadError,
            >(PayloadError::NotJson)
            &&& valid_utf8(bytes@) && json_value(decode_utf8(bytes@)) == Some(document) <==> message
                == Ok::<Value, PayloadError>(document)
        },
{
}

} // verus!
