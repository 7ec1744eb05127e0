//! Sessions of a service: which requests, calls and responses follow each other.

use crate::exchange::{
    call, carries, request_packet, response_packet, reply, service_call, service_reply,
    CallerAction, ReplyEvent, ServiceReply, RESPONSE_GUID_TEXT,
};
use crate::gdp::{ForwardPacket, GDPName, Packet};
use crate::payload::PayloadError;
use serde_json::Value;
use vstd::prelude::*;

verus! {

/// Where the ROS side of a remotely provided service stands.
#[derive(Debug, Clone, Copy, PartialEq, Eq, Structural)]
pub enum ServicePhase {
    /// The next request may be taken.
    Idle,
    /// The packet of a request is out.
    Waiting,
    /// The answer to the request is to be given.
    Answering,
    /// What came back was not readable, and the session is over.
    Closed,
}

/// What happens on a service session.
#[derive(Debug, Clone, Copy, PartialEq, Eq, Structural)]
pub enum ServiceEvent {
    /// A request was taken, and its packet goes out.
    Requested,
    /// What became of the request is known, and an answer can be given.
    Resolved,
    /// What came back was not readable.
    Failed,
    /// The answer was given.
    Responded,
}

/// Where a session stands after an event; `None` if it does not allow the event then.
pub open spec fn service_step(phase: ServicePhase, event: ServiceEvent) -> Option<ServicePhase> {
    match (phase, event) {
        (ServicePhase::Idle, ServiceEvent::Requested) => Some(ServicePhase::Waiting),
        (ServicePhase::Waiting, ServiceEvent::Resolved) => Some(ServicePhase::Answering),
        (ServicePhase::Waiting, ServiceEvent::Failed) => Some(ServicePhase::Closed),
        (ServicePhase::Answering, ServiceEvent::Responded) => Some(ServicePhase::Idle),
        _ => None,
    }
}

/// The ROS side of a remotely provided service. It serves one request at a time: the packet of a
/// request goes out, and the next request is taken when this one is answered. A reply that is not
/// readable ends the session.
#[derive(Debug)]
pub struct ServiceSession {
    topic: GDPName,
    phase: ServicePhase,
}

/// The topic of a session, and where the session stands.
pub struct ServiceView {
    pub topic: GDPName,
    pub phase: ServicePhase,
}

impl View for ServiceSession {
    type V = ServiceView;

    closed spec fn view(&self) -> ServiceView {
        ServiceView { topic: self.topic, phase: self.phase }
    }
}

impl ServiceSession {
    /// A session on which no request is open.
    pub fn new(topic: GDPName) -> (r: Self)
        ensures
            r@ == (ServiceView { topic, phase: ServicePhase::Idle }),
    {
        ServiceSession { topic, phase: ServicePhase::Idle }
    }

    /// Where the session stands.
    pub fn phase(&self) -> (r: ServicePhase)
        ensures
            r == self@.phase,
    {
        self.phase
    }

    /// Takes a request and gives the packet to send for it, identified by the hash of the
    /// request's id as a string.
    pub fn on_request(&mut self, message: &Value, request_id: &str) -> (r: ForwardPacket)
        requires
            old(self)@.phase == ServicePhase::Idle,
        ensures
            final(self)@.topic == old(self)@.topic,
            service_step(old(self)@.phase, ServiceEvent::Requested) == Some(final(self)@.phase),
            carries(r, old(self)@.topic, *message, request_id@),
    {
        self.phase = ServicePhase::Waiting;
        request_packet(self.topic, message, request_id)
    }

    /// Takes what became of the open request and gives the answer to it. A reply that is not
    /// readable closes the session, and nothing is answered.
    pub fn on_outcome(&mut self, event: ReplyEvent) -> (r: Result<ServiceReply, PayloadError>)
        requires
            old(self)@.phase == ServicePhase::Waiting,
        ensures
            final(self)@.topic == old(self)@.topic,
            r == reply(event),
            r is Ok ==> service_step(old(self)@.phase, ServiceEvent::Resolved) == Some(
                final(self)@.phase,
            ),
            r is Err ==> service_step(old(self)@.phase, ServiceEvent::Failed) == Some(
                final(self)@.phase,
            ),
    {
        let r = service_reply(event);
        self.phase = match &r {
            Ok(_) => ServicePhase::Answering,
            Err(_) => ServicePhase::Closed,
        };
        r
    }

    /// Takes note that the answer was given.
    pub fn on_responded(&mut self)
        requires
            old(self)@.phase == ServicePhase::Answering,
        ensures
            final(self)@.topic == old(self)@.topic,
            service_step(old(self)@.phase, ServiceEvent::Responded) == Some(final(self)@.phase),
    {
        self.phase = ServicePhase::Idle;
    }
}

/// Where a session stands after a history; `None` if it does not allow the history.
pub open spec fn service_after(history: Seq<ServiceEvent>) -> Option<ServicePhase>
    decreases history.len(),
{
    if history.len() == 0 {
        Some(ServicePhase::Idle)
    } else {
        match service_after(history.drop_last()) {
            Some(phase) => service_step(phase, history.last()),
            None => None,
        }
    }
}

/// How often something happened.
pub open spec fn occurrences<E>(history: Seq<E>, event: E) -> nat
    decreases history.len(),
{
    if history.len() == 0 {
        0
    } else {
        occurrences(history.drop_last(), event) + if history.last() == event {
            1nat
        } else {
            0nat
        }
    }
}

/// Every request is answered exactly once: whatever a session went through, as many answers were
/// given as requests were taken, but for the last one while it is open or when it failed.
pub proof fn law_each_request_is_answered_once(history: Seq<ServiceEvent>)
    requires
        service_after(history) is Some,
    ensures
        occurrences(history, ServiceEvent::Requested) == occurrences(
            history,
            ServiceEvent::Responded,
        ) + if service_after(history) == Some(ServicePhase::Idle) {
            0nat
        } else {
            1nat
        },
        occurrences(history, ServiceEvent::Failed) == if service_after(history) == Some(
            ServicePhase::Closed,
        ) {
            1nat
        } else {
            0nat
        },
    decreases history.len(),
{
    if history.len() > 0 {
        law_each_request_is_answered_once(history.drop_last());
    }
}

/// What a session allows up to some point, it has gone through one event after the other.
proof fn lemma_service_prefix(history: Seq<ServiceEvent>, n: int)
    requires
        service_after(history) is Some,
        0 <= n <= history.len(),
    ensures
        service_after(history.take(n)) is Some,
    decreases history.len() - n,
{
    if n < history.len() {
        lemma_service_prefix(history, n + 1);
        assert(history.take(n + 1).drop_last() =~= history.take(n));
    } else {
        assert(history.take(n) =~= history);
    }
}

/// At most one request is open: after a request, nothing happens before it is known what became of
/// it, then nothing before the answer was given, and nothing at all after a reply that is not
/// readable. So the packet of the next request goes out only after the answer to this one, and
/// answers come in the order of the requests.
pub proof fn law_requests_wait_for_answers(history: Seq<ServiceEvent>, i: int)
    requires
        service_after(history) is Some,
        0 <= i < history.len(),
    ensures
        history[i] == ServiceEvent::Requested && i + 1 < history.len() ==> history[i + 1]
            == ServiceEvent::Resolved || history[i + 1] == ServiceEvent::Failed,
        history[i] == ServiceEvent::Resolved && i + 1 < history.len() ==> history[i + 1]
            == ServiceEvent::Responded,
        history[i] == ServiceEvent::Responded && i + 1 < history.len() ==> history[i + 1]
            == ServiceEvent::Requested,
        history[i] == ServiceEvent::Failed ==> i + 1 == history.len(),
        i == 0 ==> history[i] == ServiceEvent::Requested,
{
    lemma_service_prefix(history, i);
    lemma_service_prefix(history, i + 1);
    assert(history.take(i + 1).drop_last() =~= history.take(i));
    if i == 0 {
        assert(history.take(0) =~= Seq::empty());
    }
    if i + 1 < history.len() {
        lemma_service_prefix(history, i + 2);
        assert(history.take(i + 2).drop_last() =~= history.take(i + 1));
    }
}

/// Where the session of a locally called service stands.
#[derive(Debug, Clone, Copy, PartialEq, Eq, Structural)]
pub enum CallPhase {
    /// The next packet may be taken.
    Idle,
    /// The service is called.
    Calling,
    /// The response is to be sent.
    Sending,
    /// A packet for the service was not readable, and the session is over.
    Closed,
}

/// What happens on a call session.
pub enum CallEvent {
    /// A packet arrived.
    Arrived(Packet),
    /// The service answered with this message.
    Answered(Value),
    /// The response was sent.
    Sent,
}

/// Where the session on `topic` stands after an event; `None` if it does not allow the event then.
pub open spec fn call_step(topic: GDPName, phase: CallPhase, event: CallEvent) -> Option<
    CallPhase,
> {
    match (phase, event) {
        (CallPhase::Idle, CallEvent::Arrived(packet)) => match call(topic, packet) {
            Ok(CallerAction::Call(_)) => Some(CallPhase::Calling),
            Ok(CallerAction::Ignore) => Some(CallPhase::Idle),
            Err(_) => Some(CallPhase::Closed),
        },
        (CallPhase::Calling, CallEvent::Answered(_)) => Some(CallPhase::Sending),
        (CallPhase::Sending, CallEvent::Sent) => Some(CallPhase::Idle),
        _ => None,
    }
}

/// The side of a service that calls it for peers. It takes one packet at a time: the next one is
/// taken when the response to this one was sent.
#[derive(Debug)]
pub struct CallSession {
    topic: GDPName,
    phase: CallPhase,
}

/// The topic of a session, and where the session stands.
pub struct CallView {
    pub topic: GDPName,
    pub phase: CallPhase,
}

impl View for CallSession {
    type V = CallView;

    closed spec fn view(&self) -> CallView {
        CallView { topic: self.topic, phase: self.phase }
    }
}

impl CallSession {
    /// A session on which no call is open.
    pub fn new(topic: GDPName) -> (r: Self)
        ensures
            r@ == (CallView { topic, phase: CallPhase::Idle }),
    {
        CallSession { topic, phase: CallPhase::Idle }
    }

    /// Where the session stands.
    pub fn phase(&self) -> (r: CallPhase)
        ensures
            r == self@.phase,
    {
        self.phase
    }

    /// Takes a packet and says what the service does with it. A packet for the service that is not
    /// readable closes the session.
    pub fn on_packet(&mut self, packet: &Packet) -> (r: Result<CallerAction, PayloadError>)
        requires
            old(self)@.phase == CallPhase::Idle,
        ensures
            final(self)@.topic == old(self)@.topic,
            r == call(old(self)@.topic, *packet),
            call_step(old(self)@.topic, old(self)@.phase, CallEvent::Arrived(*packet)) == Some(
                final(self)@.phase,
            ),
    {
        let r = service_call(self.topic, packet);
        self.phase = match &r {
            Ok(CallerAction::Call(_)) => CallPhase::Calling,
            Ok(CallerAction::Ignore) => CallPhase::Idle,
            Err(_) => CallPhase::Closed,
        };
        r
    }

    /// Takes the answer of the service and gives the packet to send for it.
    pub fn on_answer(&mut self, message: &Value) -> (r: ForwardPacket)
        requires
            old(self)@.phase == CallPhase::Calling,
        ensures
            final(self)@.topic == old(self)@.topic,
            call_step(old(self)@.topic, old(self)@.phase, CallEvent::Answered(*message)) == Some(
                final(self)@.phase,
            ),
            carries(r, old(self)@.topic, *message, RESPONSE_GUID_TEXT@),
    {
        self.phase = CallPhase::Sending;
        response_packet(self.topic, message)
    }

    /// Takes note that the response was sent.
    pub fn on_sent(&mut self)
        requires
            old(self)@.phase == CallPhase::Sending,
        ensures
            final(self)@.topic == old(self)@.topic,
            call_step(old(self)@.topic, old(self)@.phase, CallEvent::Sent) == Some(
                final(self)@.phase,
            ),
    {
        self.phase = CallPhase::Idle;
    }
}

/// Where a session stands after a history; `None` if it does not allow the history.
pub open spec fn call_after(topic: GDPName, history: Seq<CallEvent>) -> Option<CallPhase>
    decreases history.len(),
{
    if history.len() == 0 {
        Some(CallPhase::Idle)
    } else {
        match call_after(topic, history.drop_last()) {
            Some(phase) => call_step(topic, phase, history.last()),
            None => None,
        }
    }
}

/// The packets that arrived, in their order.
pub open spec fn arrivals(history: Seq<CallEvent>) -> Seq<Packet>
    decreases history.len(),
{
    if history.len() == 0 {
        Seq::empty()
    } else {
        match history.last() {
            CallEvent::Arrived(packet) => arrivals(history.drop_last()).push(packet),
            _ => arrivals(history.drop_last()),
        }
    }
}

/// The requests that a list of packets holds for the service on `topic`, in their order.
pub open spec fn requests_in(topic: GDPName, packets: Seq<Packet>) -> Seq<Value>
    decreases packets.len(),
{
    if packets.len() == 0 {
        Seq::empty()
    } else {
        match call(topic, packets.last()) {
            Ok(CallerAction::Call(message)) => requests_in(topic, packets.drop_last()).push(
                message,
            ),
            _ => requests_in(topic, packets.drop_last()),
        }
    }
}

/// What the service was called with, in the order of the calls: a call is made when a packet is
/// taken.
pub open spec fn calls_made(topic: GDPName, history: Seq<CallEvent>) -> Seq<Value>
    decreases history.len(),
{
    if history.len() == 0 {
        Seq::empty()
    } else {
        let before = calls_made(topic, history.drop_last());
        match history.last() {
            CallEvent::Arrived(packet) => match call(topic, packet) {
                Ok(CallerAction::Call(message)) => before.push(message),
                _ => before,
            },
            _ => before,
        }
    }
}

/// The answers of the service, in their order; each is what a response carries.
pub open spec fn answers_given(history: Seq<CallEvent>) -> Seq<Value>
    decreases history.len(),
{
    if history.len() == 0 {
        Seq::empty()
    } else {
        match history.last() {
            CallEvent::Answered(message) => answers_given(history.drop_last()).push(message),
            _ => answers_given(history.drop_last()),
        }
    }
}

/// How many responses were sent.
pub open spec fn responses_sent(history: Seq<CallEvent>) -> nat
    decreases history.len(),
{
    if history.len() == 0 {
        0
    } else {
        responses_sent(history.drop_last()) + if history.last() is Sent {
            1nat
        } else {
            0nat
        }
    }
}

/// The service is called for the packets in the order in which they arrive, and for no others;
/// every call is answered, and every answer sent, but for the last while it is open. So the i-th
/// response carries the answer to the i-th call.
pub proof fn law_calls_are_answered_in_order(topic: GDPName, history: Seq<CallEvent>)
    requires
        call_after(topic, history) is Some,
    ensures
        calls_made(topic, history) == requests_in(topic, arrivals(history)),
        calls_made(topic, history).len() == answers_given(history).len() + if call_after(
            topic,
            history,
        ) == Some(CallPhase::Calling) {
            1nat
        } else {
            0nat
        },
        answers_given(history).len() == responses_sent(history) + if call_after(topic, history)
            == Some(CallPhase::Sending) {
            1nat
        } else {
            0nat
        },
    decreases history.len(),
{
    if history.len() > 0 {
        law_calls_are_answered_in_order(topic, history.drop_last());
        match history.last() {
            CallEvent::Arrived(packet) => {
                assert(arrivals(history).drop_last() =~= arrivals(history.drop_last()));
            },
            _ => {},
        }
    }
}

/// What a session allows up to some point, it has gone through one event after the other.
proof fn lemma_call_prefix(topic: GDPName, history: Seq<CallEvent>, n: int)
    requires
        call_after(topic, history) is Some,
        0 <= n <= history.len(),
    ensures
        call_after(topic, history.take(n)) is Some,
    decreases history.len() - n,
{
    if n < history.len() {
        lemma_call_prefix(topic, history, n + 1);
        assert(history.take(n + 1).drop_last() =~= history.take(n));
    } else {
        assert(history.take(n) =~= history);
    }
}

/// A call is followed by its answer and the answer by its response before the next packet is
/// taken; a packet for the service that is not readable is the last thing that happens.
pub proof fn law_calls_wait_for_responses(topic: GDPName, history: Seq<CallEvent>, i: int)
    requires
        call_after(topic, history) is Some,
        0 <= i < history.len(),
    ensures
        history[i] matches CallEvent::Arrived(packet) ==> {
            &&& call(topic, packet) matches Ok(CallerAction::Call(_)) ==> i + 1 < history.len()
                ==> history[i + 1] is Answered
            &&& call(topic, packet) is Err ==> i + 1 == history.len()
        },
        history[i] is Answered ==> i + 1 < history.len() ==> history[i + 1] is Sent,
        history[i] is Sent ==> i + 1 < history.len() ==> history[i + 1] is Arrived,
{
    lemma_call_prefix(topic, history, i);
    lemma_call_prefix(topic, history, i + 1);
    assert(history.take(i + 1).drop_last() =~= history.take(i));
    if i + 1 < history.len() {
        lemma_call_prefix(topic, history, i + 2);
        assert(history.take(i + 2).drop_last() =~= history.take(i + 1));
    }
}

/// A session takes a request when none is open, then what became of it, then that it was answered,
/// and nothing else; after a reply that is not readable it takes nothing.
pub proof fn law_service_session_goes_on(history: Seq<ServiceEvent>, event: ServiceEvent)
    requires
        service_after(history) is Some,
    ensures
        service_after(history.push(event)) is Some <==> if history.len() == 0 {
            event is Requested
        } else {
            match history.last() {
                ServiceEvent::Requested => event is Resolved || event is Failed,
                ServiceEvent::Resolved => event is Responded,
                ServiceEvent::Responded => event is Requested,
                ServiceEvent::Failed => false,
            }
        },
{
    assert(history.push(event).drop_last() =~= history);
    if history.len() > 0 {
        lemma_service_prefix(history, history.len() - 1);
        assert(history.take(history.len() - 1) =~= history.drop_last());
    }
}

/// A session tells where it stands by what happened last.
pub proof fn law_service_phase_is_told_by_the_last_event(history: Seq<ServiceEvent>)
    requires
        service_after(history) is Some,
    ensures
        service_after(history)->0 is Idle <==> history.len() == 0 || history.last() is Responded,
        service_after(history)->0 is Waiting <==> history.len() > 0 && history.last() is Requested,
        service_after(history)->0 is Answering <==> history.len() > 0 && history.last() is Resolved,
        service_after(history)->0 is Closed <==> history.len() > 0 && history.last() is Failed,
{
}

/// A call session takes a packet when no call is open, the answer when one is, then that the
/// response was sent, and nothing else. A packet for another leaves it free for the next, and one
/// for the service that is not readable is the last that it takes.
pub proof fn law_call_session_goes_on(topic: GDPName, history: Seq<CallEvent>, event: CallEvent)
    requires
        call_after(topic, history) is Some,
    ensures
        call_after(topic, history.push(event)) is Some <==> if history.len() == 0 {
            event is Arrived
        } else {
            match history.last() {
                CallEvent::Arrived(packet) => match call(topic, packet) {
                    Ok(CallerAction::Call(_)) => event is Answered,
                    Ok(CallerAction::Ignore) => event is Arrived,
                    Err(_) => false,
                },
                CallEvent::Answered(_) => event is Sent,
                CallEvent::Sent => event is Arrived,
            }
        },
{
    assert(history.push(event).drop_last() =~= history);
}

/// A call session tells where it stands by what happened last.
pub proof fn law_call_phase_is_told_by_the_last_event(topic: GDPName, history: Seq<CallEvent>)
    requires
        call_after(topic, history) is Some,
        history.len() > 0,
    ensures
        match history.last() {
            CallEvent::Arrived(packet) => {
                let phase = call_after(topic, history)->0;
                &&& phase is Calling <==> (call(topic, packet) matches Ok(CallerAction::Call(_)))
                &&& phase is Idle <==> call(topic, packet) == Ok::<CallerAction, PayloadError>(
                    CallerAction::Ignore,
                )
                &&& phase is Closed <==> call(topic, packet) is Err
            },
            CallEvent::Answered(_) => call_after(topic, history)->0 is Sending,
            CallEvent::Sent => call_after(topic, history)->0 is Idle,
        },
{
}

} // verus!
