//! One request and its response, across the data channel.
//!
//! A packet is identified by the hash of a text. The library gives the text; the node hashes it.

use crate::gdp::{ForwardPacket, GDPName, GdpAction, Packet};
use crate::payload::{
    decode_message, encode_message, json_bytes, json_value, message_of, payload_bytes,
    payload_message, PayloadError,
};
use serde_json::Value;
use vstd::prelude::*;
use vstd::utf8::{decode_utf8, valid_utf8};

verus! {

/// How long, in milliseconds, a ROS request waits for its response.
pub const REPLY_TIMEOUT_MS: u64 = 1000;

/// The text whose hash identifies the packet of every response.
pub const RESPONSE_GUID_TEXT: &'static str = "resp.request_id";

/// What became of a request that went out.
#[derive(Debug)]
pub enum ReplyEvent {
    /// A packet came back in time.
    Reply(Packet),
    /// Nothing came back in time.
    Timeout,
}

/// What to answer a ROS request.
#[derive(Debug)]
pub enum ServiceReply {
    /// The response message with these contents.
    Message(Value),
    /// The response message as it is before anything is filled in.
    Blank,
}

/// What to do with a packet for a local service.
#[derive(Debug)]
pub enum CallerAction {
    /// Call the service with this request.
    Call(Value),
    /// Pass over the packet.
    Ignore,
}

/// What a decoded response means for the request.
pub open spec fn reply_of(decoded: Result<Value, PayloadError>) -> Result<
    ServiceReply,
    PayloadError,
> {
    match decoded {
        Ok(message) => Ok(ServiceReply::Message(message)),
        Err(e) => Err(e),
    }
}

/// The answer to a request, given what became of it.
pub open spec fn reply(event: ReplyEvent) -> Result<ServiceReply, PayloadError> {
    match event {
        ReplyEvent::Reply(packet) => reply_of(payload_message(payload_bytes(packet.payload))),
        ReplyEvent::Timeout => Ok(ServiceReply::Blank),
    }
}

/// What a decoded request means for the local service.
pub open spec fn call_of(decoded: Result<Value, PayloadError>) -> Result<
    CallerAction,
    PayloadError,
> {
    match decoded {
        Ok(message) => Ok(CallerAction::Call(message)),
        Err(e) => Err(e),
    }
}

/// Whether a packet is for the service on `topic`.
pub open spec fn is_for(topic: GDPName, packet: Packet) -> bool {
    packet.action == GdpAction::Forward && packet.gdpname == topic
}

/// What the service on `topic` does with a packet.
pub open spec fn call(topic: GDPName, packet: Packet) -> Result<CallerAction, PayloadError> {
    if is_for(topic, packet) {
        call_of(payload_message(payload_bytes(packet.payload)))
    } else {
        Ok(CallerAction::Ignore)
    }
}

/// Whether a packet carries a message from a topic to itself, identified by the hash of a text.
pub open spec fn carries(
    packet: ForwardPacket,
    topic: GDPName,
    message: Value,
    guid_text: Seq<char>,
) -> bool {
    &&& packet.destination == topic
    &&& packet.source == topic
    &&& packet.guid_text@ == guid_text
    &&& packet.payload@ == json_bytes(message)
    &&& valid_utf8(packet.payload@)
}

/// A payload addressed from a topic to itself, identified by the hash of a text.
pub fn topic_packet(topic: GDPName, payload: Vec<u8>, guid_text: &str) -> (r: ForwardPacket)
    ensures
        r.destination == topic,
        r.source == topic,
        r.payload == payload,
        r.guid_text@ == guid_text@,
{
    ForwardPacket { destination: topic, source: topic, payload, guid_text: guid_text.to_owned() }
}

/// The packet for a ROS request, identified by the hash of the request's id as a string.
pub fn request_packet(topic: GDPName, message: &Value, request_id: &str) -> (r: ForwardPacket)
    ensures
        carries(r, topic, *message, request_id@),
{
    topic_packet(topic, encode_message(message), request_id)
}

/// The packet for the response of a local service. All responses are identified by the hash of
/// one text.
pub fn response_packet(topic: GDPName, message: &Value) -> (r: ForwardPacket)
    ensures
        carries(r, topic, *message, RESPONSE_GUID_TEXT@),
{
    topic_packet(topic, encode_message(message), RESPONSE_GUID_TEXT)
}

/// Turns a decoded response into the answer.
pub fn answer(decoded: Result<Value, PayloadError>) -> (r: Result<ServiceReply, PayloadError>)
    ensures
        r == reply_of(decoded),
{
    match decoded {
        Ok(message) => Ok(ServiceReply::Message(message)),
        Err(e) => Err(e),
    }
}

/// The answer to a ROS request: the message that came back, or a blank response when nothing
/// came back in time. A packet without a readable message is an error.
pub fn service_reply(event: ReplyEvent) -> (r: Result<ServiceReply, PayloadError>)
    ensures
        r == reply(event),
{
    match event {
        ReplyEvent::Reply(packet) => answer(decode_message(&packet.payload)),
        ReplyEvent::Timeout => Ok(ServiceReply::Blank),
    }
}

/// Turns a decoded request into a call.
pub fn invocation(decoded: Result<Value, PayloadError>) -> (r: Result<CallerAction, PayloadError>)
    ensures
        r == call_of(decoded),
{
    match decoded {
        Ok(message) => Ok(CallerAction::Call(message)),
        Err(e) => Err(e),
    }
}

/// What the local service on `topic` does with a packet: it is called for each packet that is
/// forwarded to the topic's own address, and passes over all others, whatever their payload. A
/// packet for the service without a readable message is an error.
pub fn service_call(topic: GDPName, packet: &Packet) -> (r: Result<CallerAction, PayloadError>)
    ensures
        r == call(topic, *packet),
{
    if packet.action == GdpAction::Forward {
        if packet.gdpname == topic {
            return invocation(decode_message(&packet.payload));
        }
    }
    Ok(CallerAction::Ignore)
}

/// A request that arrives at the node that runs the service is for the service, and the service is
/// called with the document that the payload reads back as. Only a payload that the parser refuses
/// keeps it from being called.
pub proof fn law_request_reaches_the_service(
    packet: ForwardPacket,
    topic: GDPName,
    message: Value,
    guid_text: Seq<char>,
    received: Packet,
)
    requires
        carries(packet, topic, message, guid_text),
        packet.delivered(received),
    ensures
        is_for(topic, received),
        call(topic, received) == call_of(message_of(json_value(decode_utf8(json_bytes(message))))),
        call(topic, received) != Ok::<CallerAction, PayloadError>(CallerAction::Ignore),
{
}

/// A response that comes back in time is the answer, as the document that the payload reads back
/// as. Only a payload that the parser refuses keeps it from being one.
pub proof fn law_response_is_the_answer(
    packet: ForwardPacket,
    topic: GDPName,
    message: Value,
    guid_text: Seq<char>,
    received: Packet,
)
    requires
        carries(packet, topic, message, guid_text),
        packet.delivered(received),
    ensures
        reply(ReplyEvent::Reply(received)) == reply_of(
            message_of(json_value(decode_utf8(json_bytes(message)))),
        ),
{
}

/// A packet for another topic, or one that is not forwarded, is passed over whatever it holds.
pub proof fn law_other_packets_are_passed_over(topic: GDPName, packet: Packet)
    requires
        packet.action != GdpAction::Forward || packet.gdpname != topic,
    ensures
        call(topic, packet) == Ok::<CallerAction, PayloadError>(CallerAction::Ignore),
{
}

/// Requests with different ids are identified by the hashes of different texts.
pub proof fn law_requests_are_told_apart(
    first: ForwardPacket,
    first_topic: GDPName,
    first_message: Value,
    first_id: Seq<char>,
    second: ForwardPacket,
    second_topic: GDPName,
    second_message: Value,
    second_id: Seq<char>,
)
    requires
        carries(first, first_topic, first_message, first_id),
        carries(second, second_topic, second_message, second_id),
    ensures
        first.guid_text@ == second.guid_text@ <==> first_id == second_id,
{
}

/// All responses are identified by the hash of the same text, whatever their topics and their
/// messages.
pub proof fn law_responses_share_their_identifier(
    first: ForwardPacket,
    first_topic: GDPName,
    first_message: Value,
    second: ForwardPacket,
    second_topic: GDPName,
    second_message: Value,
)
    requires
        carries(first, first_topic, first_message, RESPONSE_GUID_TEXT@),
        carries(second, second_topic, second_message, RESPONSE_GUID_TEXT@),
    ensures
        first.guid_text@ == second.guid_text@,
        first.guid_text@ == "resp.request_id"@,
{
}

/// A reply whose payload is UTF-8 and reads as a document is answered with exactly that document,
/// whatever its size and whatever the packet is addressed to. A reply without a readable document
/// is an error, and the first thing that is wrong with its payload is which. A blank response is
/// the answer to a timeout, and to nothing else.
pub proof fn law_answer_is_what_came_back(packet: Packet, document: Value, event: ReplyEvent)
    ensures
        reply(event) == Ok::<ServiceReply, PayloadError>(ServiceReply::Blank) <==> event is Timeout,
        packet.payload is None ==> reply(ReplyEvent::Reply(packet)) == Err::<
            ServiceReply,
            PayloadError,
        >(PayloadError::Missing),
        packet.payload matches Some(bytes) ==> {
            let answered = reply(ReplyEvent::Reply(packet));
            &&& !valid_utf8(bytes@) ==> answered == Err::<ServiceReply, PayloadError>(
                PayloadError::NotUtf8,
            )
            &&& valid_utf8(bytes@) && json_value(decode_utf8(bytes@)) is None ==> answered == Err::<
                ServiceReply,
                PayloadError,
            >(PayloadError::NotJson)
            &&& valid_utf8(bytes@) && json_value(decode_utf8(bytes@)) == Some(document)
                <==> answered == Ok::<ServiceReply, PayloadError>(ServiceReply::Message(document))
        },
{
}

/// A service is called exactly for the packets that are forwarded to its topic and whose payload
/// is UTF-8 and reads as a document, and with exactly that document, whatever its size. A packet
/// for it without a readable document is an error, and the first thing that is wrong with its
/// payload is which; every other packet is passed over.
pub proof fn law_call_is_what_was_sent(topic: GDPName, packet: Packet, document: Value)
    ensures
        call(topic, packet) == Ok::<CallerAction, PayloadError>(CallerAction::Ignore) <==> !(
        packet.action is Forward && packet.gdpname == topic),
        packet.action is Forward && packet.gdpname == topic ==> match packet.payload {
            None => call(topic, packet) == Err::<CallerAction, PayloadError>(PayloadError::Missing),
            Some(bytes) => {
                let action = call(topic, packet);
                &&& !valid_utf8(bytes@) ==> action == Err::<CallerAction, PayloadError>(
                    PayloadError::NotUtf8,
                )
                &&& valid_utf8(bytes@) && json_value(decode_utf8(bytes@)) is None ==> action
                    == Err::<CallerAction, PayloadError>(PayloadError::NotJson)
                &&& valid_utf8(bytes@) && json_value(decode_utf8(bytes@)) == Some(document)
                    <==> action == Ok::<CallerAction, PayloadError>(CallerAction::Call(document))
            },
        },
{
}

/// What was decoded is handed on as it is: a message becomes the answer or the call with that very
/// message, and an error stays that error.
pub proof fn law_decoded_message_is_handed_on(document: Value, error: PayloadError)
    ensures
        reply_of(Ok(document)) == Ok::<ServiceReply, PayloadError>(ServiceReply::Message(document)),
        reply_of(Err(error)) == Err::<ServiceReply, PayloadError>(error),
        call_of(Ok(document)) == Ok::<CallerAction, PayloadError>(CallerAction::Call(document)),
        call_of(Err(error)) == Err::<CallerAction, PayloadError>(error),
{
}

/// A packet that carries a message goes from the topic to the topic, holds all that is written for
/// the message and nothing else, and is identified by the whole text: two packets that carry one
/// message on one topic under one text are the same.
pub proof fn law_packet_holds_the_whole_message(
    packet: ForwardPacket,
    other: ForwardPacket,
    topic: GDPName,
    message: Value,
    guid_text: Seq<char>,
)
    requires
        carries(packet, topic, message, guid_text),
        carries(other, topic, message, guid_text),
    ensures
        packet.destination == topic,
        packet.source == topic,
        packet.payload@ == json_bytes(message),
        packet.guid_text@ == guid_text,
        other.payload@ == packet.payload@,
        other.guid_text@ == packet.guid_text@,
        other.destination == packet.destination,
        other.source == packet.source,
{
}

} // verus!
