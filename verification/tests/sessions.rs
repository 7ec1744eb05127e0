use serde_json::{Number, Value};
use sgc_services::exchange::{CallerAction, ReplyEvent, ServiceReply};
use sgc_services::gdp::{ForwardPacket, GDPName, GdpAction, Packet};
use sgc_services::payload::PayloadError;
use sgc_services::sessions::{CallPhase, CallSession, ServicePhase, ServiceSession};

const TOPIC: GDPName = GDPName([1, 2, 3, 4]);
const OTHER: GDPName = GDPName([4, 3, 2, 1]);

fn number(n: i64) -> Value {
    Value::Number(Number::from(n))
}

fn deliver(packet: &ForwardPacket) -> Packet {
    Packet {
        action: GdpAction::Forward,
        gdpname: packet.destination,
        payload: Some(packet.payload.clone()),
    }
}

fn arriving(gdpname: GDPName, payload: &[u8]) -> Packet {
    Packet { action: GdpAction::Forward, gdpname, payload: Some(payload.to_vec()) }
}

#[test]
fn a_session_answers_each_request_once() {
    let mut session = ServiceSession::new(TOPIC);
    assert_eq!(session.phase(), ServicePhase::Idle);
    let mut requests = 0;
    let mut answers = 0;
    for round in 0..3 {
        let id = format!("request {}", round);
        let packet = session.on_request(&number(round), &id);
        requests += 1;
        assert_eq!(packet.guid_text, id);
        assert_eq!(packet.destination, TOPIC);
        assert_eq!(session.phase(), ServicePhase::Waiting);
        let event = if round == 1 {
            ReplyEvent::Timeout
        } else {
            ReplyEvent::Reply(deliver(&packet))
        };
        match session.on_outcome(event) {
            Ok(ServiceReply::Message(message)) => assert_eq!(message, number(round)),
            Ok(ServiceReply::Blank) => assert_eq!(round, 1),
            Err(e) => panic!("{:?}", e),
        }
        assert_eq!(session.phase(), ServicePhase::Answering);
        assert_eq!(requests, answers + 1);
        session.on_responded();
        answers += 1;
        assert_eq!(session.phase(), ServicePhase::Idle);
        assert_eq!(requests, answers);
    }
}

#[test]
fn an_unreadable_reply_closes_the_session() {
    for (payload, error) in [
        (None, PayloadError::Missing),
        (Some(vec![0x80]), PayloadError::NotUtf8),
        (Some(b"nul".to_vec()), PayloadError::NotJson),
    ] {
        let mut session = ServiceSession::new(TOPIC);
        session.on_request(&Value::Null, "id");
        let packet = Packet { action: GdpAction::Forward, gdpname: TOPIC, payload };
        match session.on_outcome(ReplyEvent::Reply(packet)) {
            Err(e) => assert_eq!(e, error),
            other => panic!("{:?}", other),
        }
        assert_eq!(session.phase(), ServicePhase::Closed);
    }
}

#[test]
fn calls_are_answered_in_order() {
    let mut session = CallSession::new(TOPIC);
    let mut calls = vec![];
    let mut responses = vec![];
    for (packet, expected) in [
        (arriving(TOPIC, b"1"), Some(1)),
        (arriving(OTHER, b"2"), None),
        (arriving(TOPIC, b"3"), Some(3)),
        (arriving(OTHER, b"not read"), None),
        (arriving(TOPIC, b"5"), Some(5)),
    ] {
        assert_eq!(session.phase(), CallPhase::Idle);
        match session.on_packet(&packet) {
            Ok(CallerAction::Call(message)) => {
                assert_eq!(Some(message.clone()), expected.map(number));
                assert_eq!(session.phase(), CallPhase::Calling);
                calls.push(message.as_i64().unwrap());
                let response = session.on_answer(&number(message.as_i64().unwrap() * 10));
                assert_eq!(session.phase(), CallPhase::Sending);
                assert_eq!(response.guid_text, "resp.request_id");
                assert_eq!(response.destination, TOPIC);
                responses.push(response.payload);
                session.on_sent();
            }
            Ok(CallerAction::Ignore) => assert_eq!(expected, None),
            Err(e) => panic!("{:?}", e),
        }
    }
    assert_eq!(session.phase(), CallPhase::Idle);
    assert_eq!(calls, vec![1, 3, 5]);
    assert_eq!(responses, vec![b"10".to_vec(), b"30".to_vec(), b"50".to_vec()]);
}

#[test]
fn an_unreadable_packet_closes_the_calls() {
    let mut session = CallSession::new(TOPIC);
    match session.on_packet(&arriving(TOPIC, b"{")) {
        Err(e) => assert_eq!(e, PayloadError::NotJson),
        other => panic!("{:?}", other),
    }
    assert_eq!(session.phase(), CallPhase::Closed);
}

#[test]
fn a_request_travels_both_ways() {
    let mut service = ServiceSession::new(TOPIC);
    let mut caller = CallSession::new(TOPIC);
    let request = service.on_request(&number(20), "one");
    match caller.on_packet(&deliver(&request)) {
        Ok(CallerAction::Call(message)) => assert_eq!(message, number(20)),
        other => panic!("{:?}", other),
    }
    let response = caller.on_answer(&number(22));
    caller.on_sent();
    match service.on_outcome(ReplyEvent::Reply(deliver(&response))) {
        Ok(ServiceReply::Message(message)) => assert_eq!(message, number(22)),
        other => panic!("{:?}", other),
    }
    service.on_responded();
    assert_eq!(service.phase(), ServicePhase::Idle);
    assert_eq!(caller.phase(), CallPhase::Idle);
}
