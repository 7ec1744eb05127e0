//! Topics that a node serves: what a request to modify one changes in the forwarding table, which
//! stream it bridges, and when it brings up a ROS endpoint.

use crate::gdp::{Destination, FibChangeAction, FibStateChange, GDPName};
use vstd::prelude::*;

verus! {

/// A request to modify a topic. A request that adds the topic carries the data channel to the
/// peer.
#[derive(Debug)]
pub struct TopicModificationRequest<S> {
    pub action: FibChangeAction,
    pub stream: Option<S>,
    pub topic_name: String,
    pub topic_type: String,
    pub certificate: Vec<u8>,
}

/// A ROS endpoint to create.
#[derive(Debug, Clone)]
pub struct Endpoint {
    pub topic_name: String,
    pub topic_type: String,
}

/// A peer to attach to a topic: the changes to send in this order, the stream to bridge, and the
/// endpoint to create, if the topic has none yet.
#[derive(Debug)]
pub struct Attachment<S> {
    pub updates: Vec<FibStateChange>,
    pub stream: S,
    pub endpoint: Option<Endpoint>,
}

/// What to do about a request.
#[derive(Debug)]
pub enum TopicPlan<S> {
    /// Send one change, and nothing else.
    Update(FibStateChange),
    /// Attach a peer.
    Attach(Attachment<S>),
}

/// The topics that have a ROS endpoint, in the order in which they got it.
#[derive(Debug)]
pub struct TopicRegistry {
    existing_topics: Vec<GDPName>,
}

impl View for TopicRegistry {
    type V = Seq<GDPName>;

    closed spec fn view(&self) -> Seq<GDPName> {
        self.existing_topics@
    }
}

impl TopicRegistry {
    /// No topic is registered twice.
    pub open spec fn wf(self) -> bool {
        self@.no_duplicates()
    }

    /// A registry without topics.
    pub fn new() -> (r: Self)
        ensures
            r.wf(),
            r@ == Seq::<GDPName>::empty(),
    {
        TopicRegistry { existing_topics: Vec::new() }
    }

    /// Whether a topic has an endpoint.
    pub fn contains(&self, topic: GDPName) -> (r: bool)
        ensures
            r == self@.contains(topic),
    {
        let mut i: usize = 0;
        while i < self.existing_topics.len()
            invariant
                i <= self@.len(),
                self@ == self.existing_topics@,
                forall|j: int| 0 <= j < i ==> #[trigger] self@[j] != topic,
            decreases self@.len() - i,
        {
            if self.existing_topics[i] == topic {
                assert(self@[i as int] == topic);
                return true;
            }
            i += 1;
        }
        false
    }

    /// Registers a topic and says whether it is new.
    fn register(&mut self, topic: GDPName) -> (new: bool)
        requires
            old(self).wf(),
        ensures
            final(self).wf(),
            final(self)@ == registered(old(self)@, FibChangeAction::ADD, topic),
            new == creates(old(self)@, FibChangeAction::ADD, topic),
    {
        if self.contains(topic) {
            false
        } else {
            self.existing_topics.push(topic);
            true
        }
    }
}

/// Whether a request brings up an endpoint: it adds a topic that has none.
pub open spec fn creates(
    existing: Seq<GDPName>,
    action: FibChangeAction,
    topic: GDPName,
) -> bool {
    action == FibChangeAction::ADD && !existing.contains(topic)
}

/// The topics with an endpoint after a request.
pub open spec fn registered(
    existing: Seq<GDPName>,
    action: FibChangeAction,
    topic: GDPName,
) -> Seq<GDPName> {
    if creates(existing, action, topic) {
        existing.push(topic)
    } else {
        existing
    }
}

/// A change that names no destination.
pub open spec fn bare_change(action: FibChangeAction, topic: GDPName) -> FibStateChange {
    FibStateChange { action, topic_gdp_name: topic, forward_destination: None }
}

/// A change that directs packets or responses to one end of the bridge.
pub open spec fn directed_change(
    action: FibChangeAction,
    topic: GDPName,
    destination: Destination,
) -> FibStateChange {
    FibStateChange { action, topic_gdp_name: topic, forward_destination: Some(destination) }
}

/// The changes for a peer of a remotely provided service: requests go out to the peer, responses
/// come back to ROS.
pub open spec fn provider_changes(topic: GDPName) -> Seq<FibStateChange> {
    seq![
        directed_change(FibChangeAction::ADD, topic, Destination::Rtc),
        directed_change(FibChangeAction::RESPONSE, topic, Destination::Ros),
    ]
}

/// The changes for a peer of a locally called service: packets come in to ROS.
pub open spec fn caller_changes(topic: GDPName) -> Seq<FibStateChange> {
    seq![directed_change(FibChangeAction::ADD, topic, Destination::Ros)]
}

/// What `plan` must be for a request on `topic`, when `existing` have endpoints and a peer is
/// attached by `changes`.
pub open spec fn plans<S>(
    existing: Seq<GDPName>,
    request: TopicModificationRequest<S>,
    topic: GDPName,
    changes: Seq<FibStateChange>,
    plan: TopicPlan<S>,
) -> bool {
    if request.action == FibChangeAction::ADD {
        &&& plan matches TopicPlan::Attach(attachment)
        &&& attachment.updates@ == changes
        &&& request.stream == Some(attachment.stream)
        &&& attachment.endpoint is Some <==> creates(existing, request.action, topic)
        &&& attachment.endpoint matches Some(endpoint) ==> {
            &&& endpoint.topic_name@ == request.topic_name@
            &&& endpoint.topic_type@ == request.topic_type@
        }
    } else {
        plan == TopicPlan::<S>::Update(bare_change(request.action, topic))
    }
}

fn plan_request<S>(
    registry: &mut TopicRegistry,
    request: TopicModificationRequest<S>,
    topic_gdp_name: GDPName,
    updates: Vec<FibStateChange>,
) -> (plan: TopicPlan<S>)
    requires
        old(registry).wf(),
        request.action == FibChangeAction::ADD ==> request.stream is Some,
    ensures
        final(registry).wf(),
        final(registry)@ == registered(old(registry)@, request.action, topic_gdp_name),
        plans(old(registry)@, request, topic_gdp_name, updates@, plan),
{
    if request.action != FibChangeAction::ADD {
        return TopicPlan::Update(
            FibStateChange {
                action: request.action,
                topic_gdp_name,
                forward_destination: None,
            },
        );
    }
    let endpoint = if registry.register(topic_gdp_name) {
        Some(Endpoint { topic_name: request.topic_name, topic_type: request.topic_type })
    } else {
        None
    };
    TopicPlan::Attach(Attachment { updates, stream: request.stream.unwrap(), endpoint })
}

/// Plans for a request on a service that this node offers to ROS and a peer provides: ROS
/// requests go out over the data channel, and what comes back answers them. A request that adds
/// the topic attaches its stream, and creates the ROS service unless the topic has one; every
/// other request is passed on as a change without a destination. `topic_gdp_name` is the address
/// of the request's topic.
pub fn ros_topic_remote_service_provider<S>(
    registry: &mut TopicRegistry,
    request: TopicModificationRequest<S>,
    topic_gdp_name: GDPName,
) -> (plan: TopicPlan<S>)
    requires
        old(registry).wf(),
        request.action == FibChangeAction::ADD ==> request.stream is Some,
    ensures
        final(registry).wf(),
        final(registry)@ == registered(old(registry)@, request.action, topic_gdp_name),
        plans(old(registry)@, request, topic_gdp_name, provider_changes(topic_gdp_name), plan),
{
    let mut updates: Vec<FibStateChange> = Vec::new();
    updates.push(
        FibStateChange {
            action: FibChangeAction::ADD,
            topic_gdp_name,
            forward_destination: Some(Destination::Rtc),
        },
    );
    updates.push(
        FibStateChange {
            action: FibChangeAction::RESPONSE,
            topic_gdp_name,
            forward_destination: Some(Destination::Ros),
        },
    );
    assert(updates@ =~= provider_changes(topic_gdp_name));
    plan_request(registry, request, topic_gdp_name, updates)
}

/// Plans for a request on a service that runs at this node and a peer calls: packets from the
/// data channel become calls of the local service. A request that adds the topic attaches its
/// stream, and creates the ROS client unless the topic has one; every other request is passed on
/// as a change without a destination. `topic_gdp_name` is the address of the request's topic.
pub fn ros_topic_local_service_caller<S>(
    registry: &mut TopicRegistry,
    request: TopicModificationRequest<S>,
    topic_gdp_name: GDPName,
) -> (plan: TopicPlan<S>)
    requires
        old(registry).wf(),
        request.action == FibChangeAction::ADD ==> request.stream is Some,
    ensures
        final(registry).wf(),
        final(registry)@ == registered(old(registry)@, request.action, topic_gdp_name),
        plans(old(registry)@, request, topic_gdp_name, caller_changes(topic_gdp_name), plan),
{
    let mut updates: Vec<FibStateChange> = Vec::new();
    updates.push(
        FibStateChange {
            action: FibChangeAction::ADD,
            topic_gdp_name,
            forward_destination: Some(Destination::Ros),
        },
    );
    assert(updates@ =~= caller_changes(topic_gdp_name));
    plan_request(registry, request, topic_gdp_name, updates)
}

/// The request that attaches a peer, once its stream is open.
pub fn attach_request<S>(
    topic_name: &str,
    topic_type: &str,
    certificate: &Vec<u8>,
    stream: S,
) -> (r: TopicModificationRequest<S>)
    ensures
        r.action == FibChangeAction::ADD,
        r.stream == Some(stream),
        r.topic_name@ == topic_name@,
        r.topic_type@ == topic_type@,
        r.certificate@ == certificate@,
{
    TopicModificationRequest {
        action: FibChangeAction::ADD,
        stream: Some(stream),
        topic_name: topic_name.to_owned(),
        topic_type: topic_type.to_owned(),
        certificate: certificate.clone(),
    }
}

/// A request as far as the registry cares: its action and its topic.
pub struct Step {
    pub action: FibChangeAction,
    pub topic: GDPName,
}

/// The topics with an endpoint after a history of requests.
pub open spec fn registered_all(existing: Seq<GDPName>, history: Seq<Step>) -> Seq<GDPName>
    decreases history.len(),
{
    if history.len() == 0 {
        existing
    } else {
        registered(
            registered_all(existing, history.drop_last()),
            history.last().action,
            history.last().topic,
        )
    }
}

/// How many endpoints a history of requests brings up for a topic.
pub open spec fn creations(existing: Seq<GDPName>, history: Seq<Step>, topic: GDPName) -> nat
    decreases history.len(),
{
    if history.len() == 0 {
        0
    } else {
        let before = creations(existing, history.drop_last(), topic);
        let last = history.last();
        if last.topic == topic && creates(
            registered_all(existing, history.drop_last()),
            last.action,
            last.topic,
        ) {
            before + 1
        } else {
            before
        }
    }
}

/// Whether a history adds a topic.
pub open spec fn adds(history: Seq<Step>, topic: GDPName) -> bool {
    exists|i: int|
        0 <= i < history.len() && #[trigger] history[i].topic == topic && history[i].action
            == FibChangeAction::ADD
}

/// Over any history of requests a topic gets exactly one endpoint if it is added and had none
/// before, and no endpoint otherwise; a topic that has an endpoint keeps it, and no topic is
/// registered twice.
pub proof fn law_one_endpoint_per_topic(
    existing: Seq<GDPName>,
    history: Seq<Step>,
    topic: GDPName,
)
    requires
        existing.no_duplicates(),
    ensures
        creations(existing, history, topic) == if adds(history, topic) && !existing.contains(
            topic,
        ) {
            1nat
        } else {
            0nat
        },
        registered_all(existing, history).contains(topic) <==> existing.contains(topic) || adds(
            history,
            topic,
        ),
        registered_all(existing, history).no_duplicates(),
    decreases history.len(),
{
    if history.len() > 0 {
        let init = history.drop_last();
        let last = history.last();
        law_one_endpoint_per_topic(existing, init, topic);
        let before = registered_all(existing, init);
        let after = registered_all(existing, history);
        assert(adds(history, topic) <==> adds(init, topic) || (last.topic == topic && last.action
            == FibChangeAction::ADD)) by {
            if adds(init, topic) {
                let i = choose|i: int|
                    0 <= i < init.len() && #[trigger] init[i].topic == topic && init[i].action
                        == FibChangeAction::ADD;
                assert(history[i].topic == topic);
            }
            if adds(history, topic) {
                let i = choose|i: int|
                    0 <= i < history.len() && #[trigger] history[i].topic == topic
                        && history[i].action == FibChangeAction::ADD;
                if i < init.len() {
                    assert(init[i].topic == topic);
                }
            }
            assert(history[history.len() - 1] == last);
        }
        if creates(before, last.action, last.topic) {
            assert(after == before.push(last.topic));
            assert(after.last() == last.topic);
            if before.contains(topic) {
                let i = before.index_of(topic);
                assert(after[i] == topic);
            }
            if after.contains(topic) {
                let i = after.index_of(topic);
                if i < before.len() {
                    assert(before[i] == topic);
                }
            }
        }
    }
}

/// What a peer's changes must be for the end that offers a remote service to ROS: requests go out
/// to the peer, then responses come back to ROS. This holds of every request that adds a topic,
/// whether the topic has an endpoint or not; the peer's own stream is bridged, and an endpoint is
/// created for the request's topic exactly if there is none yet.
pub proof fn law_provider_attaches_every_peer<S>(
    existing: Seq<GDPName>,
    request: TopicModificationRequest<S>,
    topic: GDPName,
    plan: TopicPlan<S>,
)
    requires
        plans(existing, request, topic, provider_changes(topic), plan),
        request.action is ADD,
    ensures
        plan matches TopicPlan::Attach(attachment) && {
            &&& attachment.updates@.len() == 2
            &&& attachment.updates@[0].action is ADD
            &&& attachment.updates@[0].topic_gdp_name == topic
            &&& attachment.updates@[0].forward_destination == Some(Destination::Rtc)
            &&& attachment.updates@[1].action is RESPONSE
            &&& attachment.updates@[1].topic_gdp_name == topic
            &&& attachment.updates@[1].forward_destination == Some(Destination::Ros)
            &&& request.stream == Some(attachment.stream)
            &&& attachment.endpoint is None <==> existing.contains(topic)
            &&& attachment.endpoint matches Some(endpoint) ==> endpoint.topic_name@
                == request.topic_name@ && endpoint.topic_type@ == request.topic_type@
        },
{
}

/// What a peer's changes must be for the end that calls a local service: packets come in to ROS.
/// This holds of every request that adds a topic, whether the topic has an endpoint or not; the
/// peer's own stream is bridged, and an endpoint is created for the request's topic exactly if
/// there is none yet.
pub proof fn law_caller_attaches_every_peer<S>(
    existing: Seq<GDPName>,
    request: TopicModificationRequest<S>,
    topic: GDPName,
    plan: TopicPlan<S>,
)
    requires
        plans(existing, request, topic, caller_changes(topic), plan),
        request.action is ADD,
    ensures
        plan matches TopicPlan::Attach(attachment) && {
            &&& attachment.updates@.len() == 1
            &&& attachment.updates@[0].action is ADD
            &&& attachment.updates@[0].topic_gdp_name == topic
            &&& attachment.updates@[0].forward_destination == Some(Destination::Ros)
            &&& request.stream == Some(attachment.stream)
            &&& attachment.endpoint is None <==> existing.contains(topic)
            &&& attachment.endpoint matches Some(endpoint) ==> endpoint.topic_name@
                == request.topic_name@ && endpoint.topic_type@ == request.topic_type@
        },
{
}

/// Every request that does not add a topic is one change of its own kind to that topic, without a
/// destination, whatever is attached, and whichever end handles it.
pub proof fn law_other_requests_are_passed_on<S>(
    existing: Seq<GDPName>,
    request: TopicModificationRequest<S>,
    topic: GDPName,
    changes: Seq<FibStateChange>,
    plan: TopicPlan<S>,
)
    requires
        plans(existing, request, topic, changes, plan),
        request.action !is ADD,
    ensures
        plan matches TopicPlan::Update(change) && {
            &&& change.action == request.action
            &&& change.topic_gdp_name == topic
            &&& change.forward_destination is None
        },
        registered(existing, request.action, topic) == existing,
{
}

/// A topic is registered by the request that adds it, behind those that were there, and once: all
/// that were there stay in their places, and nothing else comes.
pub proof fn law_registry_only_grows(
    existing: Seq<GDPName>,
    action: FibChangeAction,
    topic: GDPName,
)
    ensures
        existing.is_prefix_of(registered(existing, action, topic)),
        action is ADD ==> registered(existing, action, topic).contains(topic),
        registered(existing, action, topic).len() == existing.len() + if action is ADD
            && !existing.contains(topic) {
            1int
        } else {
            0int
        },
        creates(existing, action, topic) <==> action is ADD && !existing.contains(topic),
{
    let after = registered(existing, action, topic);
    if action is ADD && !existing.contains(topic) {
        assert(after[existing.len() as int] == topic);
    }
}

/// Over any history of requests, every peer that is attached to a topic gets the same changes as
/// the first one, each with a destination, however often the topic is added, deleted or resumed
/// before.
pub proof fn law_later_peers_are_attached_like_the_first<S>(
    existing: Seq<GDPName>,
    history: Seq<Step>,
    requests: Seq<TopicModificationRequest<S>>,
    provider_plans: Seq<TopicPlan<S>>,
    caller_plans: Seq<TopicPlan<S>>,
)
    requires
        requests.len() == history.len(),
        provider_plans.len() == history.len(),
        caller_plans.len() == history.len(),
        forall|i: int| 0 <= i < history.len() ==> #[trigger] requests[i].action == history[i].action,
        forall|i: int|
            0 <= i < history.len() ==> plans(
                registered_all(existing, history.take(i)),
                requests[i],
                history[i].topic,
                provider_changes(history[i].topic),
                #[trigger] provider_plans[i],
            ),
        forall|i: int|
            0 <= i < history.len() ==> plans(
                registered_all(existing, history.take(i)),
                requests[i],
                history[i].topic,
                caller_changes(history[i].topic),
                #[trigger] caller_plans[i],
            ),
    ensures
        forall|i: int, j: int|
            0 <= i < j < history.len() && history[i].action is ADD && history[j].action is ADD
                && history[i].topic == history[j].topic ==> {
                &&& #[trigger] provider_plans[i] matches TopicPlan::Attach(first)
                &&& #[trigger] provider_plans[j] matches TopicPlan::Attach(later)
                &&& later.updates@ == first.updates@
                &&& later.updates@.len() == 2
                &&& later.updates@[0].forward_destination == Some(Destination::Rtc)
                &&& later.updates@[1].forward_destination == Some(Destination::Ros)
            },
        forall|i: int, j: int|
            0 <= i < j < history.len() && history[i].action is ADD && history[j].action is ADD
                && history[i].topic == history[j].topic ==> {
                &&& #[trigger] caller_plans[i] matches TopicPlan::Attach(first)
                &&& #[trigger] caller_plans[j] matches TopicPlan::Attach(later)
                &&& later.updates@ == first.updates@
                &&& later.updates@.len() == 1
                &&& later.updates@[0].forward_destination == Some(Destination::Ros)
            },
{
    assert forall|i: int, j: int|
        0 <= i < j < history.len() && history[i].action is ADD && history[j].action is ADD
            && history[i].topic == history[j].topic implies {
        &&& #[trigger] provider_plans[i] matches TopicPlan::Attach(first)
        &&& #[trigger] provider_plans[j] matches TopicPlan::Attach(later)
        &&& later.updates@ == first.updates@
        &&& later.updates@.len() == 2
        &&& later.updates@[0].forward_destination == Some(Destination::Rtc)
        &&& later.updates@[1].forward_destination == Some(Destination::Ros)
    } by {
        assert(requests[i].action == history[i].action);
        assert(requests[j].action == history[j].action);
    }
    assert forall|i: int, j: int|
        0 <= i < j < history.len() && history[i].action is ADD && history[j].action is ADD
            && history[i].topic == history[j].topic implies {
        &&& #[trigger] caller_plans[i] matches TopicPlan::Attach(first)
        &&& #[trigger] caller_plans[j] matches TopicPlan::Attach(later)
        &&& later.updates@ == first.updates@
        &&& later.updates@.len() == 1
        &&& later.updates@[0].forward_destination == Some(Destination::Ros)
    } by {
        assert(requests[i].action == history[i].action);
        assert(requests[j].action == history[j].action);
    }
}

} // verus!
