//! Notifications of the key-value store that nodes find each other through.

use crate::encoding::utf8_lossy;
use crate::text;
use redis_async::resp::{FromResp, RespValue};
use vstd::prelude::*;
use vstd::utf8::{decode_utf8, valid_utf8};

verus! {

/// Why a message is not what it should be.
#[verifier::external_type_specification]
#[verifier::external_body]
pub struct ExRedisError(redis_async::error::Error);

/// A message of the store.
#[derive(Debug, Clone)]
pub enum RespMessage {
    Nil,
    /// A list of messages, which services do not look into.
    Array,
    BulkString(Vec<u8>),
    Error(String),
    Integer(i64),
    SimpleString(String),
}

/// What a message means for a list that is watched.
#[derive(Debug, Clone, Copy, PartialEq, Eq, Structural)]
pub enum KeyspaceEvent {
    /// Something was put at the head of the list.
    Pushed,
    /// Something else happened to it.
    Ignored,
    /// The message names no operation.
    Unreadable,
}

/// The decimal digits of a number.
pub open spec fn digits(n: nat) -> Seq<char>
    decreases n,
{
    if n < 10 {
        seq![(48 + n) as char]
    } else {
        digits(n / 10).push((48 + n % 10) as char)
    }
}

/// A number in decimal notation.
pub open spec fn decimal(n: int) -> Seq<char> {
    if n < 0 {
        seq!['-'] + digits((-n) as nat)
    } else {
        digits(n as nat)
    }
}

/// The text of a message; `None` where it has none.
pub open spec fn resp_text(message: RespMessage) -> Option<Seq<char>> {
    match message {
        RespMessage::BulkString(bytes) => Some(utf8_lossy(bytes@)),
        RespMessage::Integer(n) => Some(decimal(n as int)),
        RespMessage::SimpleString(text) => Some(text@),
        RespMessage::Nil | RespMessage::Array | RespMessage::Error(_) => None,
    }
}

/// Calls `<String as FromResp>::from_resp`: a simple string is its text, an integer its decimal
/// notation and a bulk string what `String::from_utf8_lossy` makes of it; everything else is an
/// error.
#[verifier::external_body]
fn resp_string(message: RespMessage) -> (r: Result<String, redis_async::error::Error>)
    ensures
        r matches Ok(text) ==> resp_text(message) == Some(text@),
        r is Err ==> resp_text(message) is None,
        r matches Ok(text) ==> (message matches RespMessage::BulkString(bytes) ==> valid_utf8(
            bytes@,
        ) ==> text@ == decode_utf8(bytes@)),
        r matches Ok(text) ==> (message matches RespMessage::BulkString(bytes) ==> !valid_utf8(
            bytes@,
        ) ==> text@.contains('\u{FFFD}')),
{
    String::from_resp(
        match message {
            RespMessage::Nil => RespValue::Nil,
            RespMessage::Array => RespValue::Array(Vec::new()),
            RespMessage::BulkString(bytes) => RespValue::BulkString(bytes),
            RespMessage::Error(text) => RespValue::Error(text),
            RespMessage::Integer(n) => RespValue::Integer(n),
            RespMessage::SimpleString(text) => RespValue::SimpleString(text),
        },
    )
}

/// The event that an operation on a watched list is: only `lpush` puts something at its head.
pub open spec fn event_of(operation: Option<Seq<char>>) -> KeyspaceEvent {
    match operation {
        Some(name) => if name == "lpush"@ {
            KeyspaceEvent::Pushed
        } else {
            KeyspaceEvent::Ignored
        },
        None => KeyspaceEvent::Unreadable,
    }
}

/// Classifies the operation that a message named.
pub fn classify(operation: Option<String>) -> (r: KeyspaceEvent)
    ensures
        operation matches Some(name) ==> r == event_of(Some(name@)),
        operation is None ==> r == event_of(None),
{
    match operation {
        Some(name) => if text::same(name.as_str(), "lpush") {
            KeyspaceEvent::Pushed
        } else {
            KeyspaceEvent::Ignored
        },
        None => KeyspaceEvent::Unreadable,
    }
}

/// Reads a message about a watched list. A bulk string, which is what the store sends, is a push
/// exactly when it spells `lpush`.
pub fn keyspace_event(message: RespMessage) -> (r: KeyspaceEvent)
    ensures
        r == event_of(resp_text(message)),
        message matches RespMessage::BulkString(bytes) ==> r == (if valid_utf8(bytes@)
            && decode_utf8(bytes@) == "lpush"@ {
            KeyspaceEvent::Pushed
        } else {
            KeyspaceEvent::Ignored
        }),
{
    proof {
        reveal_strlit("lpush");
    }
    classify(
        match resp_string(message) {
            Ok(text) => Some(text),
            Err(_) => None,
        },
    )
}

/// A message tells of a push exactly when its text is `lpush`, it tells of something else when it
/// has any other text, and it is not readable when it has none. A number never tells of a push.
pub proof fn law_only_lpush_is_a_push(message: RespMessage)
    ensures
        ({
            let event = event_of(resp_text(message));
            match message {
                RespMessage::SimpleString(text) => {
                    &&& text@ == "lpush"@ <==> event is Pushed
                    &&& text@ != "lpush"@ <==> event is Ignored
                },
                RespMessage::BulkString(bytes) => {
                    &&& utf8_lossy(bytes@) == "lpush"@ <==> event is Pushed
                    &&& utf8_lossy(bytes@) != "lpush"@ <==> event is Ignored
                },
                RespMessage::Integer(_) => event is Ignored,
                RespMessage::Nil | RespMessage::Array | RespMessage::Error(_) => event
                    is Unreadable,
            }
        }),
{
    reveal_strlit("lpush");
    if message is Integer {
        let n = message->Integer_0 as int;
        let m: nat = if n < 0 {
            (-n) as nat
        } else {
            n as nat
        };
        assert(digits(m).len() > 0 && digits(m).last() == (48 + m % 10) as char);
        assert(decimal(n).last() == digits(m).last());
        assert(decimal(n).last() != 'h');
        assert("lpush"@.last() == 'h');
    }
}

/// An operation is a push exactly when it is spelled `lpush`, something else when it is spelled in
/// any other way, and not readable when there is none.
pub proof fn law_operation_is_told_by_its_name(name: Seq<char>)
    ensures
        event_of(Some(name)) is Pushed <==> name == "lpush"@,
        event_of(Some(name)) is Ignored <==> name != "lpush"@,
        event_of(None) is Unreadable,
{
}

} // verus!
