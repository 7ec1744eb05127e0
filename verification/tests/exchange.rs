use serde_json::{Number, Value};
use sgc_services::exchange::{
    answer, invocation, request_packet, response_packet, service_call, service_reply, topic_packet,
    CallerAction, ReplyEvent, ServiceReply, REPLY_TIMEOUT_MS, RESPONSE_GUID_TEXT,
};
use sgc_services::gdp::{ForwardPacket, GDPName, GdpAction, Packet};
use sgc_services::payload::{accept_document, decode_message, encode_message, PayloadError};

const TOPIC: GDPName = GDPName([1, 2, 3, 4]);
const OTHER: GDPName = GDPName([5, 5, 5, 5]);

fn sum_request() -> Value {
    let mut fields = serde_json::Map::new();
    fields.insert("a".to_string(), Value::Number(Number::from(2)));
    fields.insert("b".to_string(), Value::Number(Number::from(40)));
    Value::Object(fields)
}

fn deliver(packet: &ForwardPacket) -> Packet {
    Packet {
        action: GdpAction::Forward,
        gdpname: packet.destination,
        payload: Some(packet.payload.clone()),
    }
}

#[test]
fn messages_are_written_as_json() {
    assert_eq!(encode_message(&sum_request()), b"{\"a\":2,\"b\":40}".to_vec());
    assert_eq!(encode_message(&Value::Null), b"null".to_vec());
    assert_eq!(
        encode_message(&Value::String("hé".to_string())),
        "\"hé\"".as_bytes().to_vec()
    );
}

#[test]
fn messages_are_read_from_json() {
    let payload = Some(b" { \"b\" : 40, \"a\" : 2 } ".to_vec());
    assert_eq!(decode_message(&payload), Ok(sum_request()));
    let payload = Some("\"h\\u00e9é\"".as_bytes().to_vec());
    assert_eq!(decode_message(&payload), Ok(Value::String("héé".to_string())));
}

#[test]
fn payload_errors_come_in_order() {
    assert_eq!(decode_message(&None), Err(PayloadError::Missing));
    assert_eq!(decode_message(&Some(vec![b'"', 0xff, b'"'])), Err(PayloadError::NotUtf8));
    assert_eq!(decode_message(&Some(vec![])), Err(PayloadError::NotJson));
    assert_eq!(decode_message(&Some(b"{\"a\":".to_vec())), Err(PayloadError::NotJson));
    assert_eq!(decode_message(&Some(b"1 2".to_vec())), Err(PayloadError::NotJson));
}

#[test]
fn parsed_documents_are_accepted() {
    assert_eq!(accept_document(Ok(Value::Bool(true))), Ok(Value::Bool(true)));
    assert_eq!(
        accept_document(serde_json::from_str("?")),
        Err(PayloadError::NotJson)
    );
}

#[test]
fn topic_packets_go_from_the_topic_to_itself() {
    let packet = topic_packet(TOPIC, vec![1, 2], "id");
    assert_eq!(packet.destination, TOPIC);
    assert_eq!(packet.source, TOPIC);
    assert_eq!(packet.payload, vec![1, 2]);
    assert_eq!(packet.guid_text, "id");
}

#[test]
fn requests_are_told_apart_by_their_ids() {
    let first = request_packet(TOPIC, &sum_request(), "writer 1, number 1");
    let second = request_packet(TOPIC, &sum_request(), "writer 1, number 2");
    let again = request_packet(OTHER, &Value::Null, "writer 1, number 1");
    assert_eq!(first.guid_text, "writer 1, number 1");
    assert_ne!(first.guid_text, second.guid_text);
    assert_eq!(first.guid_text, again.guid_text);
}

#[test]
fn responses_share_their_identifier() {
    let first = response_packet(TOPIC, &sum_request());
    let second = response_packet(OTHER, &Value::Null);
    assert_eq!(first.guid_text, "resp.request_id");
    assert_eq!(second.guid_text, "resp.request_id");
    assert_eq!(RESPONSE_GUID_TEXT, "resp.request_id");
}

#[test]
fn a_request_reaches_the_service() {
    let packet = request_packet(TOPIC, &sum_request(), "id");
    assert_eq!(packet.destination, TOPIC);
    match service_call(TOPIC, &deliver(&packet)) {
        Ok(CallerAction::Call(message)) => assert_eq!(message, sum_request()),
        other => panic!("{:?}", other),
    }
}

#[test]
fn a_response_is_the_answer() {
    let packet = response_packet(TOPIC, &sum_request());
    assert_eq!(packet.destination, TOPIC);
    match service_reply(ReplyEvent::Reply(deliver(&packet))) {
        Ok(ServiceReply::Message(message)) => assert_eq!(message, sum_request()),
        other => panic!("{:?}", other),
    }
}

#[test]
fn a_timeout_is_answered_blank() {
    assert!(matches!(service_reply(ReplyEvent::Timeout), Ok(ServiceReply::Blank)));
    assert_eq!(REPLY_TIMEOUT_MS, 1000);
}

#[test]
fn replies_are_read_whatever_they_are_addressed_to() {
    let packet = Packet {
        action: GdpAction::Other,
        gdpname: OTHER,
        payload: Some(b"[]".to_vec()),
    };
    match service_reply(ReplyEvent::Reply(packet)) {
        Ok(ServiceReply::Message(message)) => assert_eq!(message, Value::Array(vec![])),
        other => panic!("{:?}", other),
    }
}

#[test]
fn unreadable_replies_are_errors() {
    for (payload, error) in [
        (None, PayloadError::Missing),
        (Some(vec![0x80]), PayloadError::NotUtf8),
        (Some(b"nul".to_vec()), PayloadError::NotJson),
    ] {
        let packet = Packet { action: GdpAction::Forward, gdpname: TOPIC, payload };
        match service_reply(ReplyEvent::Reply(packet.clone())) {
            Err(e) => assert_eq!(e, error),
            other => panic!("{:?}", other),
        }
        match service_call(TOPIC, &packet) {
            Err(e) => assert_eq!(e, error),
            other => panic!("{:?}", other),
        }
    }
}

#[test]
fn packets_for_others_are_passed_over() {
    for (action, gdpname) in [
        (GdpAction::Other, TOPIC),
        (GdpAction::Forward, OTHER),
        (GdpAction::Other, OTHER),
    ] {
        let packet = Packet { action, gdpname, payload: None };
        assert!(matches!(service_call(TOPIC, &packet), Ok(CallerAction::Ignore)));
    }
}

#[test]
fn decoded_messages_become_answers_and_calls() {
    assert!(matches!(answer(Ok(Value::Null)), Ok(ServiceReply::Message(Value::Null))));
    assert!(matches!(answer(Err(PayloadError::NotUtf8)), Err(PayloadError::NotUtf8)));
    assert!(matches!(invocation(Ok(Value::Null)), Ok(CallerAction::Call(Value::Null))));
    assert!(matches!(invocation(Err(PayloadError::Missing)), Err(PayloadError::Missing)));
}
