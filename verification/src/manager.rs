//! The service manager: what to do about each request of the control interface.

use crate::gdp::{FibChangeAction, FibStateChange, GDPName};
use crate::text;
use crate::topics::{bare_change, plans, registered, TopicModificationRequest, TopicPlan};
use vstd::prelude::*;

verus! {

/// The state that a topic reports.
#[derive(Debug, PartialEq, Clone)]
pub struct RosTopicStatus {
    pub action: String,
}

/// A request of the control interface.
#[derive(Debug, Clone)]
pub struct ROSTopicRequest {
    /// What to do: `add`, `del` or `resume`.
    pub api_op: String,
    /// In which role: `client` or `service` when adding, `pub` or `sub` otherwise.
    pub ros_op: String,
    pub topic_name: String,
    pub topic_type: String,
}

/// The task that a modification is handed to.
#[derive(Debug, Clone, Copy, PartialEq, Eq, Structural)]
pub enum OperationQueue {
    /// The one that offers remotely provided services to ROS.
    RemoteServiceProvider,
    /// The one that calls local services for peers.
    LocalServiceCaller,
}

/// What starts when a topic is added.
#[derive(Debug, Clone, Copy, PartialEq, Eq, Structural)]
pub enum Discovery {
    /// Dial the publishers that address this node.
    CreateNewLocalServiceCaller,
    /// Listen for the subscribers of the topic.
    CreateNewRemoteServiceProvider,
}

/// A discovery to start, and the queue that it hands its attached peers to.
#[derive(Debug)]
pub struct DiscoveryStart {
    pub discovery: Discovery,
    pub queue: OperationQueue,
    pub topic_name: String,
    pub topic_type: String,
    pub certificate: Vec<u8>,
}

/// A discovery to start, and the queue that it hands its attached peers to.
#[verifier::ext_equal]
pub struct StartView {
    pub discovery: Discovery,
    pub queue: OperationQueue,
    pub topic_name: Seq<char>,
    pub topic_type: Seq<char>,
    pub certificate: Seq<u8>,
}

impl View for DiscoveryStart {
    type V = StartView;

    open spec fn view(&self) -> StartView {
        StartView {
            discovery: self.discovery,
            queue: self.queue,
            topic_name: self.topic_name@,
            topic_type: self.topic_type@,
            certificate: self.certificate@,
        }
    }
}

/// What to do about a request.
#[derive(Debug)]
pub enum ManagerAction<S> {
    /// Start a discovery.
    Start(DiscoveryStart),
    /// Hand a modification to a queue.
    Modify(OperationQueue, TopicModificationRequest<S>),
    /// Nothing: the role is not one that the operation knows.
    UnknownAction(String),
    /// Nothing: there is no such operation.
    NotHandled(String),
}

/// The name of the key pair that a node uses unless it is configured otherwise.
pub const CRYPTO_NAME: &'static str = "test_cert";

/// How long, in milliseconds, the task that calls local services waits before it creates its ROS
/// node. The other task creates one too, and creating ROS nodes is not thread safe.
pub const NODE_START_DELAY_MS: u64 = 500;

/// Where the key pair `name` is kept.
pub open spec fn default_crypto_path(name: Seq<char>) -> Seq<char> {
    "./sgc_launch/configs/crypto/"@ + name + "/"@ + name + "-private.pem"@
}

/// The file that holds the certificate: the configured one, else the default one.
pub fn crypto_path(configured: Option<String>) -> (r: String)
    ensures
        configured matches Some(path) ==> r == path,
        configured is None ==> r@ == default_crypto_path(CRYPTO_NAME@),
{
    match configured {
        Some(path) => path,
        None => {
            let mut path = "./sgc_launch/configs/crypto/".to_owned();
            path.append(CRYPTO_NAME);
            path.append("/");
            path.append(CRYPTO_NAME);
            path.append("-private.pem");
            path
        },
    }
}

/// The discovery that a role starts, and the queue that it feeds. A `client` uses a service that
/// a peer runs; a `service` is run here and offered to peers.
pub open spec fn discovery_for(role: Seq<char>) -> Option<(Discovery, OperationQueue)> {
    if role == "client"@ {
        Some((Discovery::CreateNewLocalServiceCaller, OperationQueue::RemoteServiceProvider))
    } else if role == "service"@ {
        Some((Discovery::CreateNewRemoteServiceProvider, OperationQueue::LocalServiceCaller))
    } else {
        None
    }
}

/// The queue that a role's modifications go to.
pub open spec fn queue_for(role: Seq<char>) -> Option<OperationQueue> {
    if role == "pub"@ {
        Some(OperationQueue::RemoteServiceProvider)
    } else if role == "sub"@ {
        Some(OperationQueue::LocalServiceCaller)
    } else {
        None
    }
}

/// The change that an operation on a topic that is there makes.
pub open spec fn change_for(operation: Seq<char>) -> Option<FibChangeAction> {
    if operation == "del"@ {
        Some(FibChangeAction::DELETE)
    } else if operation == "resume"@ {
        Some(FibChangeAction::RESUME)
    } else {
        None
    }
}

/// Whether `action` is what to do about `payload` with this certificate.
pub open spec fn manages<S>(
    payload: ROSTopicRequest,
    certificate: Seq<u8>,
    action: ManagerAction<S>,
) -> bool {
    if payload.api_op@ == "add"@ {
        match discovery_for(payload.ros_op@) {
            Some((discovery, queue)) => {
                &&& action matches ManagerAction::Start(start)
                &&& start.discovery == discovery
                &&& start.queue == queue
                &&& start.topic_name@ == payload.topic_name@
                &&& start.topic_type@ == payload.topic_type@
                &&& start.certificate@ == certificate
            },
            None => action matches ManagerAction::UnknownAction(role) && role@ == payload.ros_op@,
        }
    } else {
        match change_for(payload.api_op@) {
            Some(change) => match queue_for(payload.ros_op@) {
                Some(queue) => {
                    &&& action matches ManagerAction::Modify(to, request)
                    &&& to == queue
                    &&& request.action == change
                    &&& request.stream is None
                    &&& request.topic_name@ == payload.topic_name@
                    &&& request.topic_type@ == payload.topic_type@
                    &&& request.certificate@ == certificate
                },
                None => action matches ManagerAction::UnknownAction(role) && role@
                    == payload.ros_op@,
            },
            None => action matches ManagerAction::NotHandled(operation) && operation@
                == payload.api_op@,
        }
    }
}

fn start<S>(
    discovery: Discovery,
    queue: OperationQueue,
    payload: ROSTopicRequest,
    certificate: &Vec<u8>,
) -> (r: ManagerAction<S>)
    ensures
        r matches ManagerAction::Start(start) && {
            &&& start.discovery == discovery
            &&& start.queue == queue
            &&& start.topic_name@ == payload.topic_name@
            &&& start.topic_type@ == payload.topic_type@
            &&& start.certificate@ == certificate@
        },
{
    ManagerAction::Start(
        DiscoveryStart {
            discovery,
            queue,
            topic_name: payload.topic_name,
            topic_type: payload.topic_type,
            certificate: certificate.clone(),
        },
    )
}

fn modify<S>(change: FibChangeAction, payload: ROSTopicRequest, certificate: &Vec<u8>) -> (r:
    ManagerAction<S>)
    requires
        payload.api_op@ != "add"@,
        change_for(payload.api_op@) == Some(change),
    ensures
        manages(payload, certificate@, r),
{
    let queue = if text::same(payload.ros_op.as_str(), "pub") {
        OperationQueue::RemoteServiceProvider
    } else if text::same(payload.ros_op.as_str(), "sub") {
        OperationQueue::LocalServiceCaller
    } else {
        return ManagerAction::UnknownAction(payload.ros_op);
    };
    ManagerAction::Modify(
        queue,
        TopicModificationRequest {
            action: change,
            stream: None,
            topic_name: payload.topic_name,
            topic_type: payload.topic_type,
            certificate: certificate.clone(),
        },
    )
}

/// Decides about a request of the control interface. `add` starts a discovery for the role
/// `client` or `service`; `del` and `resume` hand a modification without a stream to the queue of
/// the role `pub` or `sub`. A role that the operation does not know, and an operation that there
/// is not, change nothing.
pub fn ros_service_manager<S>(payload: ROSTopicRequest, certificate: &Vec<u8>) -> (r: ManagerAction<
    S,
>)
    ensures
        manages(payload, certificate@, r),
{
    if text::same(payload.api_op.as_str(), "add") {
        if text::same(payload.ros_op.as_str(), "client") {
            start(
                Discovery::CreateNewLocalServiceCaller,
                OperationQueue::RemoteServiceProvider,
                payload,
                certificate,
            )
        } else if text::same(payload.ros_op.as_str(), "service") {
            start(
                Discovery::CreateNewRemoteServiceProvider,
                OperationQueue::LocalServiceCaller,
                payload,
                certificate,
            )
        } else {
            ManagerAction::UnknownAction(payload.ros_op)
        }
    } else if text::same(payload.api_op.as_str(), "del") {
        modify(FibChangeAction::DELETE, payload, certificate)
    } else if text::same(payload.api_op.as_str(), "resume") {
        modify(FibChangeAction::RESUME, payload, certificate)
    } else {
        ManagerAction::NotHandled(payload.api_op)
    }
}

/// The service manager: it reads one certificate when it starts, and uses it for every request.
#[derive(Debug)]
pub struct ServiceManager {
    certificate: Option<Vec<u8>>,
}

/// Where a manager stands.
#[verifier::ext_equal]
pub enum ManagerState {
    /// It has no certificate yet.
    Starting,
    /// It has this certificate.
    Running(Seq<u8>),
}

impl View for ServiceManager {
    type V = ManagerState;

    closed spec fn view(&self) -> ManagerState {
        match self.certificate {
            Some(certificate) => ManagerState::Running(certificate@),
            None => ManagerState::Starting,
        }
    }
}

/// What happens to a manager.
pub enum ManagerEvent {
    /// The certificate file was read, and holds this.
    CertificateRead(Seq<u8>),
    /// A request came in.
    Requested(ROSTopicRequest),
}

/// Where a manager stands after an event; `None` if it does not allow the event then.
pub open spec fn manager_step(state: ManagerState, event: ManagerEvent) -> Option<ManagerState> {
    match (state, event) {
        (ManagerState::Starting, ManagerEvent::CertificateRead(certificate)) => Some(
            ManagerState::Running(certificate),
        ),
        (ManagerState::Running(certificate), ManagerEvent::Requested(_)) => Some(state),
        _ => None,
    }
}

impl ServiceManager {
    /// A manager without a certificate.
    pub fn new() -> (r: Self)
        ensures
            r@ == ManagerState::Starting,
    {
        ServiceManager { certificate: None }
    }

    /// Takes the certificate that was read from the file at [`crypto_path`].
    pub fn on_certificate(&mut self, certificate: Vec<u8>)
        requires
            old(self)@ == ManagerState::Starting,
        ensures
            final(self)@ == ManagerState::Running(certificate@),
            manager_step(old(self)@, ManagerEvent::CertificateRead(certificate@)) == Some(
                final(self)@,
            ),
    {
        self.certificate = Some(certificate);
    }

    /// Decides about a request, with the certificate that was read at the start.
    pub fn on_request<S>(&self, payload: ROSTopicRequest) -> (r: ManagerAction<S>)
        requires
            self@ is Running,
        ensures
            manager_step(self@, ManagerEvent::Requested(payload)) == Some(self@),
            self@ matches ManagerState::Running(certificate) && manages(payload, certificate, r),
    {
        ros_service_manager(payload, self.certificate.as_ref().unwrap())
    }
}

/// Where a manager stands after a history; `None` if it does not allow the history.
pub open spec fn manager_after(history: Seq<ManagerEvent>) -> Option<ManagerState>
    decreases history.len(),
{
    if history.len() == 0 {
        Some(ManagerState::Starting)
    } else {
        match manager_after(history.drop_last()) {
            Some(state) => manager_step(state, history.last()),
            None => None,
        }
    }
}

/// A manager reads its certificate once, before any request, and has it from then on.
pub proof fn law_one_certificate(history: Seq<ManagerEvent>)
    requires
        manager_after(history) is Some,
    ensures
        history.len() > 0 ==> (history[0] matches ManagerEvent::CertificateRead(certificate)
            && manager_after(history) == Some(ManagerState::Running(certificate))),
        forall|i: int| 0 < i < history.len() ==> #[trigger] history[i] is Requested,
    decreases history.len(),
{
    if history.len() > 0 {
        let init = history.drop_last();
        law_one_certificate(init);
        if init.len() > 0 {
            assert(history[0] == init[0]);
            assert forall|i: int|
                0 < i < history.len() implies #[trigger] history[i] is Requested by {
                if i < init.len() {
                    assert(init[i] is Requested);
                }
            }
        }
    }
}

/// Wherever a topic of one name and type is added under one certificate, as a client or as a
/// service, the same name, type and certificate are handed on, and so the same address of the
/// topic is made of them.
pub proof fn law_roles_share_the_topic<S>(
    first: ROSTopicRequest,
    second: ROSTopicRequest,
    certificate: Seq<u8>,
    first_start: DiscoveryStart,
    second_start: DiscoveryStart,
)
    requires
        first.topic_name@ == second.topic_name@,
        first.topic_type@ == second.topic_type@,
        manages::<S>(first, certificate, ManagerAction::Start(first_start)),
        manages::<S>(second, certificate, ManagerAction::Start(second_start)),
    ensures
        first_start.topic_name@ == second_start.topic_name@,
        first_start.topic_type@ == second_start.topic_type@,
        first_start.certificate@ == second_start.certificate@,
{
}

/// The discovery that a request asks for; `None` if it asks for none.
pub open spec fn asked_for(payload: ROSTopicRequest, certificate: Seq<u8>) -> Option<StartView> {
    match discovery_for(payload.ros_op@) {
        Some((discovery, queue)) if payload.api_op@ == "add"@ => Some(
            StartView {
                discovery,
                queue,
                topic_name: payload.topic_name@,
                topic_type: payload.topic_type@,
                certificate,
            },
        ),
        _ => None,
    }
}

/// The discoveries that requests ask for, in their order.
pub open spec fn all_asked_for(requests: Seq<ROSTopicRequest>, certificate: Seq<u8>) -> Seq<
    StartView,
>
    decreases requests.len(),
{
    if requests.len() == 0 {
        Seq::empty()
    } else {
        let before = all_asked_for(requests.drop_last(), certificate);
        match asked_for(requests.last(), certificate) {
            Some(start) => before.push(start),
            None => before,
        }
    }
}

/// The discoveries that actions start, in their order.
pub open spec fn all_started<S>(actions: Seq<ManagerAction<S>>) -> Seq<StartView>
    decreases actions.len(),
{
    if actions.len() == 0 {
        Seq::empty()
    } else {
        let before = all_started(actions.drop_last());
        match actions.last() {
            ManagerAction::Start(start) => before.push(start@),
            _ => before,
        }
    }
}

/// Topics are exposed only on request: whatever requests come in, the discoveries that are started
/// are exactly those that they ask for, each for the name and the type that its request gives, in
/// the order of the requests.
pub proof fn law_topics_are_exposed_on_request<S>(
    requests: Seq<ROSTopicRequest>,
    certificate: Seq<u8>,
    actions: Seq<ManagerAction<S>>,
)
    requires
        requests.len() == actions.len(),
        forall|i: int|
            0 <= i < requests.len() ==> #[trigger] manages(requests[i], certificate, actions[i]),
    ensures
        all_started(actions) == all_asked_for(requests, certificate),
    decreases requests.len(),
{
    if requests.len() > 0 {
        let n = requests.len() - 1;
        assert(manages(requests[n], certificate, actions[n]));
        assert forall|i: int| 0 <= i < n implies #[trigger] manages(
            requests.drop_last()[i],
            certificate,
            actions.drop_last()[i],
        ) by {
            assert(manages(requests[i], certificate, actions[i]));
        }
        law_topics_are_exposed_on_request(requests.drop_last(), certificate, actions.drop_last());
    }
}

/// A modification that the manager hands on takes no stream, and the task that gets it answers
/// with one change without a destination, attaches nobody and brings up no endpoint.
pub proof fn law_modification_is_one_change<S>(
    payload: ROSTopicRequest,
    certificate: Seq<u8>,
    queue: OperationQueue,
    request: TopicModificationRequest<S>,
    existing: Seq<GDPName>,
    topic: GDPName,
    changes: Seq<FibStateChange>,
    plan: TopicPlan<S>,
)
    requires
        manages(payload, certificate, ManagerAction::Modify(queue, request)),
        plans(existing, request, topic, changes, plan),
    ensures
        request.action != FibChangeAction::ADD,
        change_for(payload.api_op@) == Some(request.action),
        plan == TopicPlan::<S>::Update(bare_change(request.action, topic)),
        registered(existing, request.action, topic) == existing,
{
}

/// Whatever is done to a topic in one role goes to one queue, in whichever order.
pub proof fn law_role_fixes_the_queue<S>(
    first: ROSTopicRequest,
    second: ROSTopicRequest,
    certificate: Seq<u8>,
    first_queue: OperationQueue,
    first_request: TopicModificationRequest<S>,
    second_queue: OperationQueue,
    second_request: TopicModificationRequest<S>,
)
    requires
        first.ros_op@ == second.ros_op@,
        manages(first, certificate, ManagerAction::Modify(first_queue, first_request)),
        manages(second, certificate, ManagerAction::Modify(second_queue, second_request)),
    ensures
        first_queue == second_queue,
{
}

/// A modification and an addition of one topic under one certificate hand on the same name, the
/// same type and the same certificate, whole: those of the requests and of the manager. So they
/// reach the address that is made of them, and what was added is what is deleted or resumed.
pub proof fn law_modification_reaches_what_was_added<S>(
    addition: ROSTopicRequest,
    modification: ROSTopicRequest,
    certificate: Seq<u8>,
    start: DiscoveryStart,
    queue: OperationQueue,
    request: TopicModificationRequest<S>,
)
    requires
        addition.topic_name@ == modification.topic_name@,
        addition.topic_type@ == modification.topic_type@,
        manages::<S>(addition, certificate, ManagerAction::Start(start)),
        manages(modification, certificate, ManagerAction::Modify(queue, request)),
    ensures
        request.topic_name@ == start.topic_name@,
        request.topic_type@ == start.topic_type@,
        request.certificate@ == start.certificate@,
        start.topic_name@ == addition.topic_name@,
        start.topic_type@ == addition.topic_type@,
        start.certificate@ == certificate,
{
}

/// Any two modifications of one topic under one certificate hand on the same name, type and
/// certificate, whole, whatever they do to the topic and in whichever role.
pub proof fn law_modifications_share_the_topic<S>(
    first: ROSTopicRequest,
    second: ROSTopicRequest,
    certificate: Seq<u8>,
    first_queue: OperationQueue,
    first_request: TopicModificationRequest<S>,
    second_queue: OperationQueue,
    second_request: TopicModificationRequest<S>,
)
    requires
        first.topic_name@ == second.topic_name@,
        first.topic_type@ == second.topic_type@,
        manages(first, certificate, ManagerAction::Modify(first_queue, first_request)),
        manages(second, certificate, ManagerAction::Modify(second_queue, second_request)),
    ensures
        first_request.topic_name@ == first.topic_name@,
        first_request.topic_type@ == first.topic_type@,
        first_request.certificate@ == certificate,
        second_request.topic_name@ == first_request.topic_name@,
        second_request.topic_type@ == first_request.topic_type@,
        second_request.certificate@ == first_request.certificate@,
{
}

/// What comes of a request is told by its operation and its role, whatever its topic and the
/// certificate: adding as a client starts a caller that feeds the providing task, adding as a
/// service starts a provider that feeds the calling task, and deleting or resuming goes to the
/// providing task for `pub` and to the calling task for `sub`, without a stream. Nothing else
/// changes anything, and what was not known is reported as it was written.
pub proof fn law_operation_and_role_tell_the_action<S>(
    payload: ROSTopicRequest,
    certificate: Seq<u8>,
    action: ManagerAction<S>,
)
    requires
        manages(payload, certificate, action),
    ensures
        payload.api_op@ == "add"@ && payload.ros_op@ == "client"@ <==> {
            &&& action matches ManagerAction::Start(start)
            &&& start.discovery is CreateNewLocalServiceCaller
            &&& start.queue is RemoteServiceProvider
        },
        payload.api_op@ == "add"@ && payload.ros_op@ == "service"@ <==> {
            &&& action matches ManagerAction::Start(start)
            &&& start.discovery is CreateNewRemoteServiceProvider
            &&& start.queue is LocalServiceCaller
        },
        payload.api_op@ == "del"@ && payload.ros_op@ == "pub"@ <==> {
            &&& action matches ManagerAction::Modify(queue, request)
            &&& queue is RemoteServiceProvider
            &&& request.action is DELETE
        },
        payload.api_op@ == "del"@ && payload.ros_op@ == "sub"@ <==> {
            &&& action matches ManagerAction::Modify(queue, request)
            &&& queue is LocalServiceCaller
            &&& request.action is DELETE
        },
        payload.api_op@ == "resume"@ && payload.ros_op@ == "pub"@ <==> {
            &&& action matches ManagerAction::Modify(queue, request)
            &&& queue is RemoteServiceProvider
            &&& request.action is RESUME
        },
        payload.api_op@ == "resume"@ && payload.ros_op@ == "sub"@ <==> {
            &&& action matches ManagerAction::Modify(queue, request)
            &&& queue is LocalServiceCaller
            &&& request.action is RESUME
        },
        action is Start <==> payload.api_op@ == "add"@ && (payload.ros_op@ == "client"@
            || payload.ros_op@ == "service"@),
        action is Modify <==> (payload.api_op@ == "del"@ || payload.api_op@ == "resume"@) && (
        payload.ros_op@ == "pub"@ || payload.ros_op@ == "sub"@),
        action is NotHandled <==> payload.api_op@ != "add"@ && payload.api_op@ != "del"@
            && payload.api_op@ != "resume"@,
        action matches ManagerAction::Start(start) ==> start.topic_name@ == payload.topic_name@
            && start.topic_type@ == payload.topic_type@ && start.certificate@ == certificate,
        action matches ManagerAction::Modify(_, request) ==> request.stream is None
            && request.topic_name@ == payload.topic_name@ && request.topic_type@
            == payload.topic_type@ && request.certificate@ == certificate,
        action matches ManagerAction::UnknownAction(role) ==> role@ == payload.ros_op@,
        action matches ManagerAction::NotHandled(operation) ==> operation@ == payload.api_op@,
{
    reveal_strlit("add");
    reveal_strlit("del");
    reveal_strlit("resume");
    reveal_strlit("client");
    reveal_strlit("service");
    reveal_strlit("pub");
    reveal_strlit("sub");
    assert("add"@[0] == 'a' && "del"@[0] == 'd' && "resume"@[0] == 'r');
    assert("client"@[0] == 'c' && "service"@[0] == 's');
    assert("pub"@[0] == 'p' && "sub"@[0] == 's');
}

/// What a start is for is what it shows.
pub proof fn law_start_shows_what_it_is_for(start: DiscoveryStart)
    ensures
        start@.discovery == start.discovery,
        start@.queue == start.queue,
        start@.topic_name == start.topic_name@,
        start@.topic_type == start.topic_type@,
        start@.certificate == start.certificate@,
{
}

/// The default file is named twice after the key pair: by its directory and by itself.
pub proof fn law_crypto_path_names_the_key_pair(name: Seq<char>)
    ensures
        ({
            let path = default_crypto_path(name);
            let n = name.len() as int;
            &&& path.len() == 28 + n + 1 + n + 12
            &&& path.take(28) == "./sgc_launch/configs/crypto/"@
            &&& path.subrange(28, 28 + n) == name
            &&& path[28 + n] == '/'
            &&& path.subrange(29 + n, 29 + n + n) == name
            &&& path.skip(29 + n + n) == "-private.pem"@
        }),
{
    reveal_strlit("./sgc_launch/configs/crypto/");
    reveal_strlit("/");
    reveal_strlit("-private.pem");
    let path = default_crypto_path(name);
    let n = name.len() as int;
    assert(path.take(28) =~= "./sgc_launch/configs/crypto/"@);
    assert(path.subrange(28, 28 + n) =~= name);
    assert(path.subrange(29 + n, 29 + n + n) =~= name);
    assert(path.skip(29 + n + n) =~= "-private.pem"@);
}

/// A manager takes its certificate when it has none, and every request when it has one; it keeps
/// the certificate, whole, whatever is asked of it.
pub proof fn law_manager_keeps_its_certificate(
    history: Seq<ManagerEvent>,
    certificate: Seq<u8>,
    payload: ROSTopicRequest,
)
    ensures
        manager_step(ManagerState::Starting, ManagerEvent::CertificateRead(certificate)) == Some(
            ManagerState::Running(certificate),
        ),
        manager_step(ManagerState::Running(certificate), ManagerEvent::Requested(payload)) == Some(
            ManagerState::Running(certificate),
        ),
        manager_step(ManagerState::Starting, ManagerEvent::Requested(payload)) is None,
        history.len() > 0 && manager_after(history) is Some ==> manager_after(
            history.push(ManagerEvent::Requested(payload)),
        ) == manager_after(history),
{
    assert(history.push(ManagerEvent::Requested(payload)).drop_last() =~= history);
    if history.len() > 0 && manager_after(history) is Some {
        law_one_certificate(history);
    }
}

} // verus!
