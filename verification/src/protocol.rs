//! The order of discovery: what each end of a service does, one step after the other, and what it
//! does for each peer.
//!
//! A run is driven by events. It answers every event with the next step; when the step is done,
//! that is the next event. The steps for one peer are a task of their own, so that the peers of
//! the first list can be served side by side.

use crate::discovery::{
    law_end_dials_its_own_addresses,
    law_one_address_for_each_subscriber, CallerDiscovery, EndView, ProviderDiscovery,
    PushedMailbox, DIAL_DELAY_MS,
};
use crate::kvs::KeyspaceEvent;
use crate::signaling::{
    keyspace_channel, law_lists_are_named_after_the_topic, publisher_list, signaling_url,
    subscriber_list, url_listener, Dialing, DialingView,
};
use crate::text::texts;
use vstd::prelude::*;

verus! {

/// Where a run stands.
#[derive(Debug, Clone, Copy, PartialEq, Eq, Structural)]
pub enum Phase {
    /// Nothing was done.
    New,
    /// The store is asked to send notifications.
    Allowing,
    /// The other's list is being subscribed to.
    Subscribing,
    /// The end's own name is being entered.
    Entering,
    /// The other's list is being read for the first time.
    Reading,
    /// The tasks for the peers of the first list are awaited, before anything is watched.
    Gathering,
    /// A notification is awaited.
    Watching,
    /// The other's list is being read again.
    Refreshing,
    /// A peer that was pushed is being attached.
    Attaching,
    /// The tasks for the peers of the first list are awaited, before the run ends.
    Closing,
    /// The run has ended.
    Ended,
    /// The run has given up.
    Failed,
}

/// What happens in a run.
#[derive(Debug)]
pub enum DiscoveryEvent {
    /// The run begins.
    Begin,
    /// Notifications are allowed.
    Allowed,
    /// The subscription is made.
    Subscribed,
    /// The entry is made.
    Entered,
    /// The list was read.
    ListRead(Vec<String>),
    /// The tasks for the peers of the first list are over, whether they attached them or not.
    PeersDone,
    /// A peer that was pushed is attached.
    PeerAttached,
    /// A notification came.
    Notified(KeyspaceEvent),
    /// Instead of a notification an error came.
    Lost,
    /// Instead of a notification nothing came.
    Quiet,
    /// What was to be done could not be done.
    StepFailed,
}

/// What happens in a run.
#[verifier::ext_equal]
pub enum EventView {
    Begin,
    Allowed,
    Subscribed,
    Entered,
    ListRead(Seq<Seq<char>>),
    PeersDone,
    PeerAttached,
    Notified(KeyspaceEvent),
    Lost,
    Quiet,
    StepFailed,
}

impl View for DiscoveryEvent {
    type V = EventView;

    open spec fn view(&self) -> EventView {
        match self {
            DiscoveryEvent::Begin => EventView::Begin,
            DiscoveryEvent::Allowed => EventView::Allowed,
            DiscoveryEvent::Subscribed => EventView::Subscribed,
            DiscoveryEvent::Entered => EventView::Entered,
            DiscoveryEvent::ListRead(list) => EventView::ListRead(texts(list@)),
            DiscoveryEvent::PeersDone => EventView::PeersDone,
            DiscoveryEvent::PeerAttached => EventView::PeerAttached,
            DiscoveryEvent::Notified(event) => EventView::Notified(*event),
            DiscoveryEvent::Lost => EventView::Lost,
            DiscoveryEvent::Quiet => EventView::Quiet,
            DiscoveryEvent::StepFailed => EventView::StepFailed,
        }
    }
}

/// What a run does next.
#[derive(Debug)]
pub enum DiscoveryStep {
    /// Ask the store to send notifications.
    AllowNotifications,
    /// Subscribe to this channel.
    Subscribe(String),
    /// Put an entry into a list.
    Enter(String, String),
    /// Read this list.
    ReadList(String),
    /// Start a task for each of these addresses to listen at, and await a notification.
    ListenAll(Vec<String>),
    /// Run the task for this address to listen at.
    Listen(String),
    /// Run a task for each of these.
    DialAll(Vec<Dialing>),
    /// Run the task for this.
    Dial(Dialing),
    /// Await a notification.
    AwaitMessage,
    /// Wait until the tasks for the peers of the first list are over.
    JoinPeers,
    /// End the run.
    Return,
    /// Give up.
    Fail,
}

/// What a run does next.
#[verifier::ext_equal]
pub enum StepView {
    AllowNotifications,
    Subscribe(Seq<char>),
    Enter(Seq<char>, Seq<char>),
    ReadList(Seq<char>),
    ListenAll(Seq<Seq<char>>),
    Listen(Seq<char>),
    DialAll(Seq<DialingView>),
    Dial(DialingView),
    AwaitMessage,
    JoinPeers,
    Return,
    Fail,
}

impl View for DiscoveryStep {
    type V = StepView;

    open spec fn view(&self) -> StepView {
        match self {
            DiscoveryStep::AllowNotifications => StepView::AllowNotifications,
            DiscoveryStep::Subscribe(channel) => StepView::Subscribe(channel@),
            DiscoveryStep::Enter(list, entry) => StepView::Enter(list@, entry@),
            DiscoveryStep::ReadList(list) => StepView::ReadList(list@),
            DiscoveryStep::ListenAll(urls) => StepView::ListenAll(texts(urls@)),
            DiscoveryStep::Listen(url) => StepView::Listen(url@),
            DiscoveryStep::DialAll(dialings) => StepView::DialAll(
                dialings@.map_values(|d: Dialing| d@),
            ),
            DiscoveryStep::Dial(dialing) => StepView::Dial(dialing@),
            DiscoveryStep::AwaitMessage => StepView::AwaitMessage,
            DiscoveryStep::JoinPeers => StepView::JoinPeers,
            DiscoveryStep::Return => StepView::Return,
            DiscoveryStep::Fail => StepView::Fail,
        }
    }
}

/// An end and where its run stands.
#[verifier::ext_equal]
pub struct RunView {
    pub end: EndView,
    pub phase: Phase,
}

impl RunView {
    /// The run in another phase.
    pub open spec fn at(self, phase: Phase) -> RunView {
        RunView { phase, ..self }
    }

    /// The run after the first list was read.
    pub open spec fn knowing(self, list: Seq<Seq<char>>) -> RunView {
        RunView { end: self.end.started(list), ..self }
    }
}

/// What an end that runs a service does after an event: the run then, and the step. `None` if the
/// event cannot come then. What fails before the first list was read makes it give up; what fails
/// later ends the watching, and the run ends when the tasks for the first peers are over.
pub open spec fn provider_step(run: RunView, event: EventView) -> Option<(RunView, StepView)> {
    let end = run.end;
    match (run.phase, event) {
        (Phase::New, EventView::Begin) => Some(
            (run.at(Phase::Allowing), StepView::AllowNotifications),
        ),
        (Phase::Allowing, EventView::Allowed) => Some(
            (
                run.at(Phase::Subscribing),
                StepView::Subscribe(keyspace_channel(subscriber_list(end.topic))),
            ),
        ),
        (Phase::Subscribing, EventView::Subscribed) => Some(
            (run.at(Phase::Reading), StepView::ReadList(subscriber_list(end.topic))),
        ),
        (Phase::Reading, EventView::ListRead(list)) => Some(
            (run.knowing(list).at(Phase::Watching), StepView::ListenAll(end.mailboxes(list))),
        ),
        (Phase::Watching, EventView::Notified(KeyspaceEvent::Pushed)) => Some(
            (run.at(Phase::Refreshing), StepView::ReadList(subscriber_list(end.topic))),
        ),
        (Phase::Watching, EventView::Notified(KeyspaceEvent::Ignored)) => Some(
            (run, StepView::AwaitMessage),
        ),
        (Phase::Watching, EventView::Quiet) => Some((run, StepView::AwaitMessage)),
        (Phase::Watching, EventView::Notified(KeyspaceEvent::Unreadable)) => Some(
            (run.at(Phase::Closing), StepView::JoinPeers),
        ),
        (Phase::Watching, EventView::Lost) => Some((run.at(Phase::Closing), StepView::JoinPeers)),
        (Phase::Refreshing, EventView::ListRead(list)) => if list.len() == 0 {
            Some((run.at(Phase::Closing), StepView::JoinPeers))
        } else if end.known.contains(list[0]) {
            Some((run.at(Phase::Watching), StepView::AwaitMessage))
        } else {
            Some((run.at(Phase::Attaching), StepView::Listen(end.mailbox(list[0]))))
        },
        (Phase::Attaching, EventView::PeerAttached) => Some(
            (run.at(Phase::Watching), StepView::AwaitMessage),
        ),
        (Phase::Allowing, EventView::StepFailed)
        | (Phase::Subscribing, EventView::StepFailed)
        | (Phase::Reading, EventView::StepFailed) => Some((run.at(Phase::Failed), StepView::Fail)),
        (Phase::Refreshing, EventView::StepFailed)
        | (Phase::Attaching, EventView::StepFailed) => Some(
            (run.at(Phase::Closing), StepView::JoinPeers),
        ),
        (Phase::Closing, EventView::PeersDone) => Some((run.at(Phase::Ended), StepView::Return)),
        _ => None,
    }
}

/// What an end that uses a service does after an event: the run then, and the step. `None` if the
/// event cannot come then. Whatever fails makes it give up, but for an error that comes instead of
/// a notification, which it passes over.
pub open spec fn caller_step(run: RunView, event: EventView) -> Option<(RunView, StepView)> {
    let end = run.end;
    match (run.phase, event) {
        (Phase::New, EventView::Begin) => Some(
            (run.at(Phase::Allowing), StepView::AllowNotifications),
        ),
        (Phase::Allowing, EventView::Allowed) => Some(
            (
                run.at(Phase::Subscribing),
                StepView::Subscribe(keyspace_channel(publisher_list(end.topic))),
            ),
        ),
        (Phase::Subscribing, EventView::Subscribed) => Some(
            (
                run.at(Phase::Entering),
                StepView::Enter(subscriber_list(end.topic), end.listening),
            ),
        ),
        (Phase::Entering, EventView::Entered) => Some(
            (run.at(Phase::Reading), StepView::ReadList(publisher_list(end.topic))),
        ),
        (Phase::Reading, EventView::ListRead(list)) => Some(
            (run.knowing(list).at(Phase::Gathering), StepView::DialAll(end.dial_all(list))),
        ),
        (Phase::Gathering, EventView::PeersDone) => Some(
            (run.at(Phase::Watching), StepView::AwaitMessage),
        ),
        (Phase::Watching, EventView::Notified(KeyspaceEvent::Pushed)) => Some(
            (run.at(Phase::Refreshing), StepView::ReadList(publisher_list(end.topic))),
        ),
        (Phase::Watching, EventView::Notified(KeyspaceEvent::Ignored)) => Some(
            (run, StepView::AwaitMessage),
        ),
        (Phase::Watching, EventView::Lost) => Some((run, StepView::AwaitMessage)),
        (Phase::Watching, EventView::Notified(KeyspaceEvent::Unreadable)) => Some(
            (run.at(Phase::Failed), StepView::Fail),
        ),
        (Phase::Watching, EventView::Quiet) => Some((run.at(Phase::Failed), StepView::Fail)),
        (Phase::Refreshing, EventView::ListRead(list)) => if list.len() == 0 {
            Some((run.at(Phase::Failed), StepView::Fail))
        } else if end.known.contains(list[0]) {
            Some((run.at(Phase::Watching), StepView::AwaitMessage))
        } else {
            match end.dial(list[0]) {
                Some(d) => Some((run.at(Phase::Attaching), StepView::Dial(d))),
                None => Some((run.at(Phase::Watching), StepView::AwaitMessage)),
            }
        },
        (Phase::Attaching, EventView::PeerAttached) => Some(
            (run.at(Phase::Watching), StepView::AwaitMessage),
        ),
        (Phase::Allowing, EventView::StepFailed)
        | (Phase::Subscribing, EventView::StepFailed)
        | (Phase::Entering, EventView::StepFailed)
        | (Phase::Reading, EventView::StepFailed)
        | (Phase::Refreshing, EventView::StepFailed)
        | (Phase::Attaching, EventView::StepFailed) => Some(
            (run.at(Phase::Failed), StepView::Fail),
        ),
        _ => None,
    }
}

/// The run of an end that runs a service.
#[derive(Debug)]
pub struct ProviderRun {
    discovery: ProviderDiscovery,
    phase: Phase,
}

impl View for ProviderRun {
    type V = RunView;

    closed spec fn view(&self) -> RunView {
        RunView { end: self.discovery@, phase: self.phase }
    }
}

impl ProviderRun {
    /// The run of an end at which nothing was done.
    pub fn new(discovery: ProviderDiscovery) -> (r: Self)
        ensures
            r@ == (RunView { end: discovery@, phase: Phase::New }),
    {
        ProviderRun { discovery, phase: Phase::New }
    }

    fn turn(&mut self, phase: Phase, step: DiscoveryStep) -> (r: DiscoveryStep)
        ensures
            final(self)@ == old(self)@.at(phase),
            r == step,
    {
        self.phase = phase;
        step
    }

    /// Takes what happened and gives what to do next; `None`, and nothing changes, if it cannot
    /// happen now.
    pub fn next_step(&mut self, event: DiscoveryEvent) -> (r: Option<DiscoveryStep>)
        ensures
            provider_step(old(self)@, event@) matches Some(next) ==> {
                &&& r matches Some(step)
                &&& next == (final(self)@, step@)
            },
            provider_step(old(self)@, event@) is None ==> r is None && final(self)@ == old(self)@,
    {
        match (self.phase, event) {
            (Phase::New, DiscoveryEvent::Begin) => Some(
                self.turn(Phase::Allowing, DiscoveryStep::AllowNotifications),
            ),
            (Phase::Allowing, DiscoveryEvent::Allowed) => {
                let channel = self.discovery.watched_channel();
                Some(self.turn(Phase::Subscribing, DiscoveryStep::Subscribe(channel)))
            },
            (Phase::Subscribing, DiscoveryEvent::Subscribed) => {
                let list = self.discovery.subscriber_topic();
                Some(self.turn(Phase::Reading, DiscoveryStep::ReadList(list)))
            },
            (Phase::Reading, DiscoveryEvent::ListRead(list)) => {
                let urls = self.discovery.start(list);
                Some(self.turn(Phase::Watching, DiscoveryStep::ListenAll(urls)))
            },
            (Phase::Watching, DiscoveryEvent::Notified(KeyspaceEvent::Ignored))
            | (Phase::Watching, DiscoveryEvent::Quiet) => Some(
                self.turn(Phase::Watching, DiscoveryStep::AwaitMessage),
            ),
            (Phase::Watching, DiscoveryEvent::Notified(KeyspaceEvent::Unreadable))
            | (Phase::Watching, DiscoveryEvent::Lost)
            | (Phase::Refreshing, DiscoveryEvent::StepFailed)
            | (Phase::Attaching, DiscoveryEvent::StepFailed) => Some(
                self.turn(Phase::Closing, DiscoveryStep::JoinPeers),
            ),
            (Phase::Closing, DiscoveryEvent::PeersDone) => Some(
                self.turn(Phase::Ended, DiscoveryStep::Return),
            ),
            (Phase::Allowing, DiscoveryEvent::StepFailed)
            | (Phase::Subscribing, DiscoveryEvent::StepFailed)
            | (Phase::Reading, DiscoveryEvent::StepFailed) => Some(
                self.turn(Phase::Failed, DiscoveryStep::Fail),
            ),
            (Phase::Watching, DiscoveryEvent::Notified(KeyspaceEvent::Pushed)) => {
                let list = self.discovery.subscriber_topic();
                Some(self.turn(Phase::Refreshing, DiscoveryStep::ReadList(list)))
            },
            (Phase::Refreshing, DiscoveryEvent::ListRead(list)) => {
                if list.len() == 0 {
                    return Some(self.turn(Phase::Closing, DiscoveryStep::JoinPeers));
                }
                assert(texts(list@)[0] == list@[0]@);
                match self.discovery.on_push(&list) {
                    Some(url) => Some(self.turn(Phase::Attaching, DiscoveryStep::Listen(url))),
                    None => Some(self.turn(Phase::Watching, DiscoveryStep::AwaitMessage)),
                }
            },
            (Phase::Attaching, DiscoveryEvent::PeerAttached) => Some(
                self.turn(Phase::Watching, DiscoveryStep::AwaitMessage),
            ),
            _ => None,
        }
    }

    /// The task for an address to listen at.
    pub fn listen_task(&self, url: String) -> (r: PeerTask)
        ensures
            r@ == (TaskView {
                plan: PlanView::Listen(publisher_list(self@.end.topic), url@),
                taken: 0,
            }),
    {
        PeerTask { plan: PeerPlan::Listen(self.discovery.publisher_topic(), url), taken: 0 }
    }
}

/// The run of an end that uses a service.
#[derive(Debug)]
pub struct CallerRun {
    discovery: CallerDiscovery,
    phase: Phase,
}

impl View for CallerRun {
    type V = RunView;

    closed spec fn view(&self) -> RunView {
        RunView { end: self.discovery@, phase: self.phase }
    }
}

impl CallerRun {
    /// The run of an end at which nothing was done.
    pub fn new(discovery: CallerDiscovery) -> (r: Self)
        ensures
            r@ == (RunView { end: discovery@, phase: Phase::New }),
    {
        CallerRun { discovery, phase: Phase::New }
    }

    fn turn(&mut self, phase: Phase, step: DiscoveryStep) -> (r: DiscoveryStep)
        ensures
            final(self)@ == old(self)@.at(phase),
            r == step,
    {
        self.phase = phase;
        step
    }

    /// Takes what happened and gives what to do next; `None`, and nothing changes, if it cannot
    /// happen now.
    pub fn next_step(&mut self, event: DiscoveryEvent) -> (r: Option<DiscoveryStep>)
        ensures
            caller_step(old(self)@, event@) matches Some(next) ==> {
                &&& r matches Some(step)
                &&& next == (final(self)@, step@)
            },
            caller_step(old(self)@, event@) is None ==> r is None && final(self)@ == old(self)@,
    {
        match (self.phase, event) {
            (Phase::New, DiscoveryEvent::Begin) => Some(
                self.turn(Phase::Allowing, DiscoveryStep::AllowNotifications),
            ),
            (Phase::Allowing, DiscoveryEvent::Allowed) => {
                let channel = self.discovery.watched_channel();
                Some(self.turn(Phase::Subscribing, DiscoveryStep::Subscribe(channel)))
            },
            (Phase::Subscribing, DiscoveryEvent::Subscribed) => {
                let list = self.discovery.subscriber_topic();
                let entry = self.discovery.registration().to_owned();
                Some(self.turn(Phase::Entering, DiscoveryStep::Enter(list, entry)))
            },
            (Phase::Entering, DiscoveryEvent::Entered) => {
                let list = self.discovery.publisher_topic();
                Some(self.turn(Phase::Reading, DiscoveryStep::ReadList(list)))
            },
            (Phase::Reading, DiscoveryEvent::ListRead(list)) => {
                let dialings = self.discovery.start(list);
                Some(self.turn(Phase::Gathering, DiscoveryStep::DialAll(dialings)))
            },
            (Phase::Gathering, DiscoveryEvent::PeersDone) => Some(
                self.turn(Phase::Watching, DiscoveryStep::AwaitMessage),
            ),
            (Phase::Watching, DiscoveryEvent::Notified(KeyspaceEvent::Ignored))
            | (Phase::Watching, DiscoveryEvent::Lost) => Some(
                self.turn(Phase::Watching, DiscoveryStep::AwaitMessage),
            ),
            (Phase::Watching, DiscoveryEvent::Notified(KeyspaceEvent::Unreadable))
            | (Phase::Watching, DiscoveryEvent::Quiet)
            | (Phase::Allowing, DiscoveryEvent::StepFailed)
            | (Phase::Subscribing, DiscoveryEvent::StepFailed)
            | (Phase::Entering, DiscoveryEvent::StepFailed)
            | (Phase::Reading, DiscoveryEvent::StepFailed)
            | (Phase::Refreshing, DiscoveryEvent::StepFailed)
            | (Phase::Attaching, DiscoveryEvent::StepFailed) => Some(
                self.turn(Phase::Failed, DiscoveryStep::Fail),
            ),
            (Phase::Watching, DiscoveryEvent::Notified(KeyspaceEvent::Pushed)) => {
                let list = self.discovery.publisher_topic();
                Some(self.turn(Phase::Refreshing, DiscoveryStep::ReadList(list)))
            },
            (Phase::Refreshing, DiscoveryEvent::ListRead(list)) => {
                if list.len() == 0 {
                    return Some(self.turn(Phase::Failed, DiscoveryStep::Fail));
                }
                assert(texts(list@)[0] == list@[0]@);
                match self.discovery.on_push(&list) {
                    PushedMailbox::Dial(d) => Some(
                        self.turn(Phase::Attaching, DiscoveryStep::Dial(d)),
                    ),
                    _ => Some(self.turn(Phase::Watching, DiscoveryStep::AwaitMessage)),
                }
            },
            (Phase::Attaching, DiscoveryEvent::PeerAttached) => Some(
                self.turn(Phase::Watching, DiscoveryStep::AwaitMessage),
            ),
            _ => None,
        }
    }
}

/// What a peer task is for.
#[derive(Debug)]
pub enum PeerPlan {
    /// Leave an address in a list and listen at it.
    Listen(String, String),
    /// Dial an address.
    Dial(Dialing),
}

/// What a peer task is for.
#[verifier::ext_equal]
pub enum PlanView {
    Listen(Seq<char>, Seq<char>),
    Dial(DialingView),
}

impl View for PeerPlan {
    type V = PlanView;

    open spec fn view(&self) -> PlanView {
        match self {
            PeerPlan::Listen(list, url) => PlanView::Listen(list@, url@),
            PeerPlan::Dial(dialing) => PlanView::Dial(dialing@),
        }
    }
}

/// A step of a peer task.
#[derive(Debug, PartialEq)]
pub enum TaskStep {
    /// Put an entry into a list.
    Enter(String, String),
    /// Wait so many milliseconds.
    Wait(u64),
    /// Open a stream at an address, to the peer at another if there is one.
    Register(String, Option<String>),
    /// Attach the stream to the topic.
    Attach,
}

/// A step of a peer task.
#[verifier::ext_equal]
pub enum TaskStepView {
    Enter(Seq<char>, Seq<char>),
    Wait(int),
    Register(Seq<char>, Option<Seq<char>>),
    Attach,
}

impl View for TaskStep {
    type V = TaskStepView;

    open spec fn view(&self) -> TaskStepView {
        match self {
            TaskStep::Enter(list, entry) => TaskStepView::Enter(list@, entry@),
            TaskStep::Wait(ms) => TaskStepView::Wait(*ms as int),
            TaskStep::Register(url, Some(peer)) => TaskStepView::Register(url@, Some(peer@)),
            TaskStep::Register(url, None) => TaskStepView::Register(url@, None),
            TaskStep::Attach => TaskStepView::Attach,
        }
    }
}

/// The steps of a peer task, in their order. An address is left in the list before its stream is
/// opened, dialing waits until the publisher can be listening, and a stream is attached when it is
/// open.
pub open spec fn task_steps(plan: PlanView) -> Seq<TaskStepView> {
    match plan {
        PlanView::Listen(list, url) => seq![
            TaskStepView::Enter(list, url),
            TaskStepView::Register(url, None),
            TaskStepView::Attach,
        ],
        PlanView::Dial(dialing) => seq![
            TaskStepView::Wait(DIAL_DELAY_MS as int),
            TaskStepView::Register(dialing.my_signaling_url, Some(dialing.peer_dialing_url)),
            TaskStepView::Attach,
        ],
    }
}

/// The steps for one peer.
#[derive(Debug)]
pub struct PeerTask {
    plan: PeerPlan,
    taken: usize,
}

/// What a task is for, and how many of its steps were taken.
#[verifier::ext_equal]
pub struct TaskView {
    pub plan: PlanView,
    pub taken: nat,
}

impl View for PeerTask {
    type V = TaskView;

    closed spec fn view(&self) -> TaskView {
        TaskView { plan: self.plan@, taken: self.taken as nat }
    }
}

impl PeerTask {
    /// The task of dialing an address.
    pub fn dial(dialing: Dialing) -> (r: Self)
        ensures
            r@ == (TaskView { plan: PlanView::Dial(dialing@), taken: 0 }),
    {
        PeerTask { plan: PeerPlan::Dial(dialing), taken: 0 }
    }

    /// The next step, when those before are done; `None` when there is none left.
    pub fn next(&mut self) -> (r: Option<TaskStep>)
        ensures
            final(self)@.plan == old(self)@.plan,
            old(self)@.taken < task_steps(old(self)@.plan).len() ==> {
                &&& r matches Some(step)
                &&& step@ == task_steps(old(self)@.plan)[old(self)@.taken as int]
                &&& final(self)@.taken == old(self)@.taken + 1
            },
            old(self)@.taken >= task_steps(old(self)@.plan).len() ==> r is None && final(self)@
                == old(self)@,
    {
        if self.taken >= 3 {
            return None;
        }
        let step = match (&self.plan, self.taken) {
            (PeerPlan::Listen(list, url), 0) => TaskStep::Enter(list.clone(), url.clone()),
            (PeerPlan::Listen(_, url), 1) => TaskStep::Register(url.clone(), None),
            (PeerPlan::Dial(_), 0) => TaskStep::Wait(DIAL_DELAY_MS),
            (PeerPlan::Dial(dialing), 1) => TaskStep::Register(
                dialing.my_signaling_url.clone(),
                Some(dialing.peer_dialing_url.clone()),
            ),
            _ => TaskStep::Attach,
        };
        self.taken = self.taken + 1;
        Some(step)
    }
}

/// The two ends of a service.
pub enum Role {
    /// The end that runs it.
    Provider,
    /// The end that uses it.
    Caller,
}

/// What an end does after an event: the run then, and the step.
pub open spec fn discovery_step(role: Role, run: RunView, event: EventView) -> Option<
    (RunView, StepView),
> {
    match role {
        Role::Provider => provider_step(run, event),
        Role::Caller => caller_step(run, event),
    }
}

/// The run after some events, and the steps that it took, one for each event. `None` if the events
/// cannot come in that order.
pub open spec fn run_after(role: Role, end: EndView, history: Seq<EventView>) -> Option<
    (RunView, Seq<StepView>),
>
    decreases history.len(),
{
    if history.len() == 0 {
        Some((RunView { end, phase: Phase::New }, Seq::empty()))
    } else {
        match run_after(role, end, history.drop_last()) {
            None => None,
            Some((run, steps)) => match discovery_step(role, run, history.last()) {
                None => None,
                Some((next, step)) => Some((next, steps.push(step))),
            },
        }
    }
}

/// The steps of a run.
pub open spec fn steps_of(role: Role, end: EndView, history: Seq<EventView>) -> Seq<StepView> {
    (run_after(role, end, history)->0).1
}

/// Where a run stands.
pub open spec fn run_of(role: Role, end: EndView, history: Seq<EventView>) -> RunView {
    (run_after(role, end, history)->0).0
}

/// The phases of the first steps.
spec fn phase_at(role: Role, n: int) -> Option<Phase> {
    match role {
        Role::Provider => if n == 0 {
            Some(Phase::New)
        } else if n == 1 {
            Some(Phase::Allowing)
        } else if n == 2 {
            Some(Phase::Subscribing)
        } else if n == 3 {
            Some(Phase::Reading)
        } else {
            None
        },
        Role::Caller => if n == 0 {
            Some(Phase::New)
        } else if n == 1 {
            Some(Phase::Allowing)
        } else if n == 2 {
            Some(Phase::Subscribing)
        } else if n == 3 {
            Some(Phase::Entering)
        } else if n == 4 {
            Some(Phase::Reading)
        } else if n == 5 {
            Some(Phase::Gathering)
        } else {
            None
        },
    }
}

/// How many events come before the first list.
pub open spec fn first_list_at(role: Role) -> int {
    match role {
        Role::Provider => 3,
        Role::Caller => 4,
    }
}

/// Where a run stands after so many events: one phase after the other at first, then among those
/// of watching and ending, unless it gave up. What the end knows is the first list.
proof fn lemma_stage(role: Role, end: EndView, history: Seq<EventView>)
    requires
        run_after(role, end, history) is Some,
    ensures
        ({
            let (run, steps) = run_after(role, end, history)->0;
            &&& steps.len() == history.len()
            &&& run.phase !is Failed ==> match phase_at(role, history.len() as int) {
                Some(phase) => run.phase == phase,
                None => run.phase is Watching || run.phase is Refreshing || run.phase is Attaching
                    || (role is Provider && (run.phase is Closing || run.phase is Ended)),
            }
            &&& run.phase is Failed && role is Provider ==> history.len() <= first_list_at(role) + 1
            &&& history.len() <= first_list_at(role) ==> run.end == end
            &&& history.len() > first_list_at(role) && run.phase !is Failed ==> {
                &&& history[first_list_at(role)] is ListRead
                &&& run.end == end.started(history[first_list_at(role)]->ListRead_0)
            }
        }),
    decreases history.len(),
{
    if history.len() > 0 {
        lemma_stage(role, end, history.drop_last());
    }
}

/// Each event of a run is answered from where the run stood before it.
proof fn lemma_each_step(role: Role, end: EndView, history: Seq<EventView>, i: int)
    requires
        run_after(role, end, history) is Some,
        0 <= i < history.len(),
    ensures
        run_after(role, end, history.take(i)) is Some,
        run_after(role, end, history.take(i + 1)) is Some,
        discovery_step(role, run_of(role, end, history.take(i)), history[i]) == Some(
            (run_of(role, end, history.take(i + 1)), steps_of(role, end, history)[i]),
        ),
        steps_of(role, end, history).len() == history.len(),
    decreases history.len(),
{
    lemma_stage(role, end, history);
    let before = history.drop_last();
    lemma_stage(role, end, before);
    if i == history.len() - 1 {
        assert(history.take(i) =~= before);
        assert(history.take(i + 1) =~= history);
    } else {
        lemma_each_step(role, end, before, i);
        assert(before.take(i) =~= history.take(i));
        assert(before.take(i + 1) =~= history.take(i + 1));
    }
}

/// What must happen before anything else does: that the step was done or failed, or, while a
/// notification is awaited, what came instead. Waiting for tasks does not fail.
pub open spec fn is_awaited(step: StepView, event: EventView) -> bool {
    match step {
        StepView::AllowNotifications => event is Allowed || event is StepFailed,
        StepView::Subscribe(_) => event is Subscribed || event is StepFailed,
        StepView::Enter(_, _) => event is Entered || event is StepFailed,
        StepView::ReadList(_) => event is ListRead || event is StepFailed,
        StepView::DialAll(_) | StepView::JoinPeers => event is PeersDone,
        StepView::Dial(_) | StepView::Listen(_) => event is PeerAttached || event is StepFailed,
        StepView::ListenAll(_) | StepView::AwaitMessage => event is Notified || event is Lost
            || event is Quiet,
        StepView::Return | StepView::Fail => false,
    }
}

/// A step is taken at this place of a run that is so long, unless the run gave up just there.
pub open spec fn comes_at(steps: Seq<StepView>, i: int, step: StepView) -> bool {
    i < steps.len() ==> steps[i] == step || (steps[i] == StepView::Fail && steps.len() == i + 1)
}

/// An end does one thing after the other: each step is done before the next is taken, and after it
/// has ended or gave up it does nothing.
pub proof fn law_steps_wait_for_each_other(
    role: Role,
    end: EndView,
    history: Seq<EventView>,
    i: int,
)
    requires
        run_after(role, end, history) is Some,
        0 <= i < history.len() - 1,
    ensures
        is_awaited(steps_of(role, end, history)[i], history[i + 1]),
{
    lemma_each_step(role, end, history, i);
    lemma_each_step(role, end, history, i + 1);
    lemma_stage(role, end, history.take(i));
    lemma_stage(role, end, history.take(i + 1));
}

/// An end that uses a service subscribes before it enters its name, enters it before it reads the
/// publisher list, and is done with the peers of that first list before it acts on a notification.
pub proof fn law_caller_enters_then_reads(end: EndView, history: Seq<EventView>)
    requires
        run_after(Role::Caller, end, history) is Some,
    ensures
        ({
            let steps = steps_of(Role::Caller, end, history);
            &&& steps.len() == history.len()
            &&& history.len() > 0 ==> steps[0] == StepView::AllowNotifications
            &&& comes_at(
                steps,
                1,
                StepView::Subscribe(keyspace_channel(publisher_list(end.topic))),
            )
            &&& comes_at(steps, 2, StepView::Enter(subscriber_list(end.topic), end.listening))
            &&& comes_at(steps, 3, StepView::ReadList(publisher_list(end.topic)))
            &&& comes_at(steps, 4, StepView::DialAll(end.dial_all(history[4]->ListRead_0)))
            &&& history.len() > 4 && steps[4] !is Fail ==> history[4] is ListRead
            &&& history.len() > 5 ==> history[5] is PeersDone
        }),
        forall|i: int| 0 <= i < history.len() && #[trigger] history[i] is Notified ==> i > 5,
{
    lemma_stage(Role::Caller, end, history);
    assert forall|i: int| 0 <= i < history.len() && #[trigger] history[i] is Notified implies i
        > 5 by {
        lemma_each_step(Role::Caller, end, history, i);
        lemma_stage(Role::Caller, end, history.take(i));
    }
    lemma_first_steps(Role::Caller, end, history, 0);
    lemma_first_steps(Role::Caller, end, history, 1);
    lemma_first_steps(Role::Caller, end, history, 2);
    lemma_first_steps(Role::Caller, end, history, 3);
    lemma_first_steps(Role::Caller, end, history, 4);
    lemma_first_steps(Role::Caller, end, history, 5);
}

/// An end that runs a service subscribes before it reads the subscriber list, and starts to listen
/// for the subscribers of that first list before it acts on a notification.
pub proof fn law_provider_subscribes_then_reads(end: EndView, history: Seq<EventView>)
    requires
        run_after(Role::Provider, end, history) is Some,
    ensures
        ({
            let steps = steps_of(Role::Provider, end, history);
            &&& steps.len() == history.len()
            &&& history.len() > 0 ==> steps[0] == StepView::AllowNotifications
            &&& comes_at(
                steps,
                1,
                StepView::Subscribe(keyspace_channel(subscriber_list(end.topic))),
            )
            &&& comes_at(steps, 2, StepView::ReadList(subscriber_list(end.topic)))
            &&& comes_at(steps, 3, StepView::ListenAll(end.mailboxes(history[3]->ListRead_0)))
            &&& history.len() > 3 && steps[3] !is Fail ==> history[3] is ListRead
        }),
        forall|i: int| 0 <= i < history.len() && #[trigger] history[i] is Notified ==> i > 3,
{
    lemma_stage(Role::Provider, end, history);
    assert forall|i: int| 0 <= i < history.len() && #[trigger] history[i] is Notified implies i
        > 3 by {
        lemma_each_step(Role::Provider, end, history, i);
        lemma_stage(Role::Provider, end, history.take(i));
    }
    lemma_first_steps(Role::Provider, end, history, 0);
    lemma_first_steps(Role::Provider, end, history, 1);
    lemma_first_steps(Role::Provider, end, history, 2);
    lemma_first_steps(Role::Provider, end, history, 3);
}

/// What is done at one of the first events.
proof fn lemma_first_steps(role: Role, end: EndView, history: Seq<EventView>, i: int)
    requires
        run_after(role, end, history) is Some,
        phase_at(role, i) is Some,
    ensures
        0 <= i < history.len() ==> {
            let run = run_of(role, end, history.take(i));
            &&& discovery_step(role, run, history[i]) matches Some(next)
            &&& next.1 == steps_of(role, end, history)[i]
            &&& run.phase == phase_at(role, i)->0
            &&& i <= first_list_at(role) ==> run.end == end
            &&& next.1 is Fail ==> history.len() == i + 1
        },
{
    if 0 <= i < history.len() {
        lemma_each_step(role, end, history, i);
        lemma_stage(role, end, history.take(i));
        if i + 1 < history.len() {
            law_steps_wait_for_each_other(role, end, history, i);
        }
    }
}

/// A peer task belongs to a step.
pub open spec fn serves(topic: Seq<char>, step: StepView, plan: PlanView) -> bool {
    match step {
        StepView::Listen(url) => plan == PlanView::Listen(publisher_list(topic), url),
        StepView::ListenAll(urls) => exists|j: int|
            0 <= j < urls.len() && plan == PlanView::Listen(
                publisher_list(topic),
                #[trigger] urls[j],
            ),
        StepView::Dial(dialing) => plan == PlanView::Dial(dialing),
        StepView::DialAll(dialings) => exists|j: int|
            0 <= j < dialings.len() && plan == PlanView::Dial(#[trigger] dialings[j]),
        _ => false,
    }
}

/// In a step, or in a peer task that belongs to it, an entry is put into a list.
pub open spec fn writes(
    topic: Seq<char>,
    step: StepView,
    list: Seq<char>,
    entry: Seq<char>,
) -> bool {
    ||| step == StepView::Enter(list, entry)
    ||| exists|plan: PlanView| #[trigger]
        serves(topic, step, plan) && task_steps(plan).contains(TaskStepView::Enter(list, entry))
}

/// In the task for a peer, an address is left in the list before a stream is opened there, a
/// dialed one is waited for, and the stream is attached when it is open.
pub proof fn law_task_order(plan: PlanView)
    ensures
        task_steps(plan).len() == 3,
        task_steps(plan)[2] == TaskStepView::Attach,
        plan matches PlanView::Listen(list, url) ==> task_steps(plan)[0] == TaskStepView::Enter(
            list,
            url,
        ) && task_steps(plan)[1] == TaskStepView::Register(url, None),
        plan matches PlanView::Dial(d) ==> task_steps(plan)[0] == TaskStepView::Wait(
            DIAL_DELAY_MS as int,
        ) && task_steps(plan)[1] == TaskStepView::Register(
            d.my_signaling_url,
            Some(d.peer_dialing_url),
        ),
{
}

/// An end that uses a service enters its name in the subscriber list, once, and puts nothing else
/// into any list, neither itself nor for a peer.
pub proof fn law_caller_writes_its_name_once(end: EndView, history: Seq<EventView>)
    requires
        run_after(Role::Caller, end, history) is Some,
    ensures
        comes_at(
            steps_of(Role::Caller, end, history),
            2,
            StepView::Enter(subscriber_list(end.topic), end.listening),
        ),
        forall|i: int, list: Seq<char>, entry: Seq<char>|
            0 <= i < history.len() && #[trigger] writes(
                end.topic,
                steps_of(Role::Caller, end, history)[i],
                list,
                entry,
            ) ==> i == 2 && list == subscriber_list(end.topic) && entry == end.listening,
{
    law_caller_enters_then_reads(end, history);
    let steps = steps_of(Role::Caller, end, history);
    assert forall|i: int, list: Seq<char>, entry: Seq<char>|
        0 <= i < history.len() && #[trigger] writes(end.topic, steps[i], list, entry) implies i == 2
        && list == subscriber_list(end.topic) && entry == end.listening by {
        lemma_each_step(Role::Caller, end, history, i);
        lemma_stage(Role::Caller, end, history.take(i));
        if steps[i] != StepView::Enter(list, entry) {
            let plan = choose|plan: PlanView| #[trigger]
                serves(end.topic, steps[i], plan) && task_steps(plan).contains(
                    TaskStepView::Enter(list, entry),
                );
            assert(plan is Dial);
            let k = task_steps(plan).index_of(TaskStepView::Enter(list, entry));
            assert(task_steps(plan)[k] is Enter);
        }
    }
}

/// An end that runs a service puts entries into the publisher list alone, and each is an address
/// of the topic under the one name that this end listens by.
pub proof fn law_provider_writes_its_addresses(end: EndView, history: Seq<EventView>)
    requires
        run_after(Role::Provider, end, history) is Some,
    ensures
        forall|i: int, list: Seq<char>, entry: Seq<char>|
            0 <= i < history.len() && #[trigger] writes(
                end.topic,
                steps_of(Role::Provider, end, history)[i],
                list,
                entry,
            ) ==> list == publisher_list(end.topic) && exists|subscriber: Seq<char>|
                entry == #[trigger] signaling_url(end.topic, end.listening, subscriber),
{
    let steps = steps_of(Role::Provider, end, history);
    assert forall|i: int, list: Seq<char>, entry: Seq<char>|
        0 <= i < history.len() && #[trigger] writes(
            end.topic,
            steps[i],
            list,
            entry,
        ) implies list == publisher_list(end.topic) && exists|subscriber: Seq<char>|
        entry == #[trigger] signaling_url(end.topic, end.listening, subscriber) by {
        lemma_each_step(Role::Provider, end, history, i);
        lemma_stage(Role::Provider, end, history.take(i));
        let run = run_of(Role::Provider, end, history.take(i));
        assert(run.end.topic == end.topic && run.end.listening == end.listening);
        let plan = choose|plan: PlanView| #[trigger]
            serves(end.topic, steps[i], plan) && task_steps(plan).contains(
                TaskStepView::Enter(list, entry),
            );
        assert(plan is Listen);
        let k = task_steps(plan).index_of(TaskStepView::Enter(list, entry));
        assert(k == 0);
        assert(plan == PlanView::Listen(list, entry));
        let read = history[i]->ListRead_0;
        if steps[i] is Listen {
            assert(entry == run.end.mailbox(read[0]));
        } else {
            let j = choose|j: int|
                0 <= j < run.end.mailboxes(read).len() && plan == PlanView::Listen(
                    publisher_list(end.topic),
                    #[trigger] run.end.mailboxes(read)[j],
                );
            assert(entry == run.end.mailbox(read[j]));
        }
    }
}

/// Where no list that is read holds anything, no peer is served: nothing is opened or attached.
/// An end that runs a service then puts nothing into any list.
pub proof fn law_nothing_is_done_for_nobody(role: Role, end: EndView, history: Seq<EventView>)
    requires
        run_after(role, end, history) is Some,
        forall|i: int|
            0 <= i < history.len() ==> (#[trigger] history[i] matches EventView::ListRead(list)
                ==> list.len() == 0),
    ensures
        forall|i: int, plan: PlanView|
            0 <= i < history.len() ==> !#[trigger] serves(
                end.topic,
                steps_of(role, end, history)[i],
                plan,
            ),
        role is Provider ==> forall|i: int, list: Seq<char>, entry: Seq<char>|
            0 <= i < history.len() ==> !#[trigger] writes(
                end.topic,
                steps_of(role, end, history)[i],
                list,
                entry,
            ),
{
    let steps = steps_of(role, end, history);
    assert forall|i: int, plan: PlanView| 0 <= i < history.len() implies !#[trigger] serves(
        end.topic,
        steps[i],
        plan,
    ) by {
        lemma_each_step(role, end, history, i);
        lemma_stage(role, end, history.take(i));
    }
    if role is Provider {
        assert forall|i: int, list: Seq<char>, entry: Seq<char>|
            0 <= i < history.len() implies !#[trigger] writes(
            end.topic,
            steps[i],
            list,
            entry,
        ) by {
            lemma_each_step(role, end, history, i);
        }
    }
}

/// After the first list a peer is served only for the head of a list that was read after a push,
/// and only if the first list did not hold it.
pub proof fn law_later_peers_are_new(
    role: Role,
    end: EndView,
    history: Seq<EventView>,
    i: int,
    plan: PlanView,
)
    requires
        run_after(role, end, history) is Some,
        first_list_at(role) < i < history.len(),
        serves(end.topic, steps_of(role, end, history)[i], plan),
    ensures
        history[i - 1] == EventView::Notified(KeyspaceEvent::Pushed),
        ({
            let first = history[first_list_at(role)]->ListRead_0;
            &&& history[i] matches EventView::ListRead(list)
            &&& list.len() > 0
            &&& !first.contains(list[0])
            &&& match role {
                Role::Provider => plan == PlanView::Listen(
                    publisher_list(end.topic),
                    end.mailbox(list[0]),
                ),
                Role::Caller => end.dial(list[0]) matches Some(d) && plan == PlanView::Dial(d),
            }
        }),
{
    lemma_each_step(role, end, history, i);
    lemma_stage(role, end, history.take(i));
    lemma_each_step(role, end, history, i - 1);
    lemma_stage(role, end, history.take(i - 1));
}

/// An event after which an end that runs a service watches no more: an error instead of a
/// notification, a message that names no operation, a list that is empty after a push, and
/// anything that could not be done after the first list was read.
pub open spec fn ends_watching(event: EventView) -> bool {
    ||| event is Lost
    ||| event == EventView::Notified(KeyspaceEvent::Unreadable)
    ||| event == EventView::ListRead(Seq::empty())
    ||| event is StepFailed
}

/// An end that runs a service does not give up once the first list was read. When it watches no
/// more, it handles no later notification, waits until the tasks for the peers of the first list
/// are over, and then ends.
pub proof fn law_provider_ends_after_its_first_peers(
    end: EndView,
    history: Seq<EventView>,
    i: int,
)
    requires
        run_after(Role::Provider, end, history) is Some,
        first_list_at(Role::Provider) < i < history.len(),
    ensures
        steps_of(Role::Provider, end, history)[i] !is Fail,
        ends_watching(history[i]) <==> steps_of(Role::Provider, end, history)[i]
            == StepView::JoinPeers,
        ends_watching(history[i]) && i + 1 < history.len() ==> {
            &&& history[i + 1] is PeersDone
            &&& steps_of(Role::Provider, end, history)[i + 1] == StepView::Return
            &&& history.len() == i + 2
        },
{
    lemma_each_step(Role::Provider, end, history, i);
    lemma_stage(Role::Provider, end, history.take(i));
    if history[i] is ListRead && history[i]->ListRead_0.len() == 0 {
        assert(history[i]->ListRead_0 =~= Seq::empty());
    }
    if i + 1 < history.len() {
        lemma_each_step(Role::Provider, end, history, i + 1);
        if ends_watching(history[i]) && i + 2 < history.len() {
            law_steps_wait_for_each_other(Role::Provider, end, history, i + 1);
        }
    }
}

/// Before the first list was read, an end that runs a service gives up exactly when something could
/// not be done.
pub proof fn law_provider_gives_up_before_its_first_peers(
    end: EndView,
    history: Seq<EventView>,
    i: int,
)
    requires
        run_after(Role::Provider, end, history) is Some,
        0 <= i < history.len(),
        i <= first_list_at(Role::Provider),
    ensures
        steps_of(Role::Provider, end, history)[i] is Fail <==> history[i] is StepFailed,
{
    lemma_each_step(Role::Provider, end, history, i);
    lemma_stage(Role::Provider, end, history.take(i));
}

/// An end that uses a service goes on after an error that comes instead of a notification. It gives
/// up exactly when something could not be done, a message names no operation, the notifications
/// end, or a list is empty after a push; it never ends otherwise.
pub proof fn law_caller_goes_on_after_errors(end: EndView, history: Seq<EventView>, i: int)
    requires
        run_after(Role::Caller, end, history) is Some,
        0 <= i < history.len(),
    ensures
        history[i] is Lost ==> steps_of(Role::Caller, end, history)[i] == StepView::AwaitMessage,
        steps_of(Role::Caller, end, history)[i] is Fail <==> {
            ||| history[i] is StepFailed
            ||| history[i] == EventView::Notified(KeyspaceEvent::Unreadable)
            ||| history[i] is Quiet
            ||| i > first_list_at(Role::Caller) && history[i] == EventView::ListRead(Seq::empty())
        },
        steps_of(Role::Caller, end, history)[i] !is Return,
        steps_of(Role::Caller, end, history)[i] !is JoinPeers,
{
    lemma_each_step(Role::Caller, end, history, i);
    lemma_stage(Role::Caller, end, history.take(i));
    if history[i] is ListRead && history[i]->ListRead_0.len() == 0 {
        assert(history[i]->ListRead_0 =~= Seq::empty());
    }
}

/// A run goes on with whatever can come of its last step, and with nothing else: with what the
/// step was to bring about or that it failed, with any notification or what comes instead while
/// one is awaited, and with the beginning at first. What was done before stays as it was.
pub proof fn law_run_goes_on(role: Role, end: EndView, history: Seq<EventView>, event: EventView)
    requires
        run_after(role, end, history) is Some,
    ensures
        run_after(role, end, history.push(event)) is Some <==> if history.len() == 0 {
            event is Begin
        } else {
            match steps_of(role, end, history).last() {
                StepView::AllowNotifications => event is Allowed || event is StepFailed,
                StepView::Subscribe(_) => event is Subscribed || event is StepFailed,
                StepView::Enter(_, _) => event is Entered || event is StepFailed,
                StepView::ReadList(_) => event is ListRead || event is StepFailed,
                StepView::DialAll(_) | StepView::JoinPeers => event is PeersDone,
                StepView::Dial(_) | StepView::Listen(_) => event is PeerAttached
                    || event is StepFailed,
                StepView::ListenAll(_) | StepView::AwaitMessage => event is Notified
                    || event is Lost || event is Quiet,
                StepView::Return | StepView::Fail => false,
            }
        },
        run_after(role, end, history.push(event)) is Some ==> {
            &&& steps_of(role, end, history.push(event)).len() == history.len() + 1
            &&& steps_of(role, end, history.push(event)).drop_last() == steps_of(role, end, history)
        },
{
    let longer = history.push(event);
    assert(longer.drop_last() =~= history);
    lemma_stage(role, end, history);
    if history.len() > 0 {
        lemma_each_step(role, end, history, history.len() - 1);
        lemma_stage(role, end, history.take(history.len() - 1));
        assert(history.take(history.len() as int) =~= history);
    }
    if run_after(role, end, longer) is Some {
        assert(steps_of(role, end, longer).drop_last() =~= steps_of(role, end, history));
    }
}

/// A run is about one topic under one name, and knows the first list from when it was read.
pub proof fn law_run_keeps_its_end(role: Role, end: EndView, history: Seq<EventView>)
    requires
        run_after(role, end, history) is Some,
    ensures
        run_of(role, end, history).end.topic == end.topic,
        run_of(role, end, history).end.listening == end.listening,
        history.len() > first_list_at(role) && steps_of(role, end, history).last() !is Fail
            ==> EventView::ListRead(run_of(role, end, history).end.known)
            == history[first_list_at(role)],
{
    lemma_stage(role, end, history);
    if history.len() > 0 {
        let n = history.len() - 1;
        lemma_each_step(role, end, history, n);
        lemma_stage(role, end, history.take(n));
        assert(history.take(n + 1) =~= history);
    }
}

/// What an end that runs a service does at each event, in terms of what happened. It first asks for
/// notifications, subscribes to the channel of the subscriber list and reads that list. It listens
/// for everyone on that first list, and after every push for the head of the list as it is then,
/// unless the first list held it: whatever else the list holds and however long it is. Everything
/// else it passes over, or ends.
pub proof fn law_provider_answers_each_event(end: EndView, history: Seq<EventView>, i: int)
    requires
        run_after(Role::Provider, end, history) is Some,
        0 <= i < history.len(),
    ensures
        ({
            let step = steps_of(Role::Provider, end, history)[i];
            let list_name = end.topic + seq!['-', 's', 'u', 'b'];
            match history[i] {
                EventView::Begin => step == StepView::AllowNotifications,
                EventView::Allowed => {
                    &&& step matches StepView::Subscribe(channel)
                    &&& channel.take(15) == "__keyspace@0__:"@
                    &&& channel.skip(15) == list_name
                },
                EventView::Subscribed => step == StepView::ReadList(list_name),
                EventView::ListRead(list) => if i == 3 {
                    &&& step matches StepView::ListenAll(urls)
                    &&& urls.len() == list.len()
                    &&& forall|k: int|
                        0 <= k < list.len() ==> #[trigger] urls[k] == end.topic + seq![',']
                            + end.listening + seq![','] + list[k]
                } else if list.len() == 0 {
                    step == StepView::JoinPeers
                } else if history[3]->ListRead_0.contains(list[0]) {
                    step == StepView::AwaitMessage
                } else {
                    step == StepView::Listen(
                        end.topic + seq![','] + end.listening + seq![','] + list[0],
                    )
                },
                EventView::PeerAttached | EventView::Quiet => step == StepView::AwaitMessage,
                EventView::Notified(KeyspaceEvent::Pushed) => step == StepView::ReadList(list_name),
                EventView::Notified(KeyspaceEvent::Ignored) => step == StepView::AwaitMessage,
                EventView::Notified(KeyspaceEvent::Unreadable) | EventView::Lost => step
                    == StepView::JoinPeers,
                EventView::StepFailed => step == if i <= 3 {
                    StepView::Fail
                } else {
                    StepView::JoinPeers
                },
                EventView::PeersDone => step == StepView::Return,
                EventView::Entered => false,
            }
        }),
{
    lemma_each_step(Role::Provider, end, history, i);
    lemma_stage(Role::Provider, end, history.take(i));
    law_lists_are_named_after_the_topic(end.topic);
    law_lists_are_named_after_the_topic(subscriber_list(end.topic));
    let run = run_of(Role::Provider, end, history.take(i));
    if history[i] is ListRead {
        let list = history[i]->ListRead_0;
        law_one_address_for_each_subscriber(run.end, list);
        if i > 3 {
            assert(history.take(i)[3] == history[3]);
        }
    }
}

/// After a push an end that runs a service listens for the subscriber at the head of the list
/// exactly if that one was not on the first list, whatever else the list holds; otherwise it goes
/// on waiting.
pub proof fn law_pushed_subscriber_is_served(
    end: EndView,
    history: Seq<EventView>,
    i: int,
    list: Seq<Seq<char>>,
)
    requires
        run_after(Role::Provider, end, history) is Some,
        first_list_at(Role::Provider) < i < history.len(),
        history[i] == EventView::ListRead(list),
        list.len() > 0,
    ensures
        !history[3]->ListRead_0.contains(list[0]) <==> steps_of(
            Role::Provider,
            end,
            history,
        )[i] == StepView::Listen(end.topic + seq![','] + end.listening + seq![','] + list[0]),
        history[3]->ListRead_0.contains(list[0]) <==> steps_of(Role::Provider, end, history)[i]
            == StepView::AwaitMessage,
{
    law_provider_answers_each_event(end, history, i);
}

/// What an end that uses a service does at each event, in terms of what happened. It first asks for
/// notifications, subscribes to the channel of the publisher list, enters its name in the
/// subscriber list and reads the publisher list. It dials what ends with its name on that first
/// list, and after every push the head of the list as it is then, if that ends with its name and
/// the first list did not hold it: whatever else the list holds and however long it is. Everything
/// else it passes over, or gives up.
pub proof fn law_caller_answers_each_event(end: EndView, history: Seq<EventView>, i: int)
    requires
        run_after(Role::Caller, end, history) is Some,
        0 <= i < history.len(),
    ensures
        ({
            let step = steps_of(Role::Caller, end, history)[i];
            let list_name = end.topic + seq!['-', 'p', 'u', 'b'];
            match history[i] {
                EventView::Begin => step == StepView::AllowNotifications,
                EventView::Allowed => {
                    &&& step matches StepView::Subscribe(channel)
                    &&& channel.take(15) == "__keyspace@0__:"@
                    &&& channel.skip(15) == list_name
                },
                EventView::Subscribed => step == StepView::Enter(
                    end.topic + seq!['-', 's', 'u', 'b'],
                    end.listening,
                ),
                EventView::Entered => step == StepView::ReadList(list_name),
                EventView::ListRead(list) => if i == 4 {
                    step == StepView::DialAll(end.dial_all(list))
                } else if list.len() == 0 {
                    step == StepView::Fail
                } else if !history[4]->ListRead_0.contains(list[0]) && exists|prefix: Seq<char>|
                    #[trigger] (prefix + end.listening) == list[0] {
                    let publisher = url_listener(list[0]);
                    &&& step matches StepView::Dial(d)
                    &&& d.my_signaling_url == end.topic + seq![','] + end.listening + seq![',']
                        + publisher
                    &&& d.peer_dialing_url == end.topic + seq![','] + publisher + seq![',']
                        + end.listening
                } else {
                    step == StepView::AwaitMessage
                },
                EventView::PeersDone | EventView::PeerAttached | EventView::Lost => step
                    == StepView::AwaitMessage,
                EventView::Notified(KeyspaceEvent::Pushed) => step == StepView::ReadList(list_name),
                EventView::Notified(KeyspaceEvent::Ignored) => step == StepView::AwaitMessage,
                EventView::Notified(KeyspaceEvent::Unreadable)
                | EventView::Quiet
                | EventView::StepFailed => step == StepView::Fail,
            }
        }),
{
    lemma_each_step(Role::Caller, end, history, i);
    lemma_stage(Role::Caller, end, history.take(i));
    law_lists_are_named_after_the_topic(end.topic);
    law_lists_are_named_after_the_topic(publisher_list(end.topic));
    let run = run_of(Role::Caller, end, history.take(i));
    if history[i] is ListRead {
        let list = history[i]->ListRead_0;
        if i > 4 {
            assert(history.take(i)[4] == history[4]);
            if list.len() > 0 {
                law_end_dials_its_own_addresses(run.end, list[0]);
            }
        }
    }
}

/// An event shows what happened, with the contents of the list that was read.
pub proof fn law_event_shows_what_happened(event: DiscoveryEvent)
    ensures
        event matches DiscoveryEvent::ListRead(list) ==> {
            &&& event@ matches EventView::ListRead(contents)
            &&& contents.len() == list@.len()
            &&& forall|i: int| 0 <= i < list@.len() ==> #[trigger] contents[i] == list@[i]@
        },
        event matches DiscoveryEvent::Notified(what) ==> event@ == EventView::Notified(what),
        event is Begin <==> event@ is Begin,
        event is Allowed <==> event@ is Allowed,
        event is Subscribed <==> event@ is Subscribed,
        event is Entered <==> event@ is Entered,
        event is ListRead <==> event@ is ListRead,
        event is PeersDone <==> event@ is PeersDone,
        event is PeerAttached <==> event@ is PeerAttached,
        event is Notified <==> event@ is Notified,
        event is Lost <==> event@ is Lost,
        event is Quiet <==> event@ is Quiet,
        event is StepFailed <==> event@ is StepFailed,
{
}

/// A step shows what is to be done, with the texts and the dialings that it holds.
pub proof fn law_step_shows_what_to_do(step: DiscoveryStep)
    ensures
        step is AllowNotifications <==> step@ is AllowNotifications,
        step is AwaitMessage <==> step@ is AwaitMessage,
        step is JoinPeers <==> step@ is JoinPeers,
        step is Return <==> step@ is Return,
        step is Fail <==> step@ is Fail,
        step matches DiscoveryStep::Subscribe(channel) ==> step@ == StepView::Subscribe(channel@),
        step matches DiscoveryStep::Enter(list, entry) ==> step@ == StepView::Enter(list@, entry@),
        step matches DiscoveryStep::ReadList(list) ==> step@ == StepView::ReadList(list@),
        step matches DiscoveryStep::Listen(url) ==> step@ == StepView::Listen(url@),
        step matches DiscoveryStep::Dial(dialing) ==> step@ == StepView::Dial(dialing@),
        step matches DiscoveryStep::ListenAll(urls) ==> {
            &&& step@ matches StepView::ListenAll(contents)
            &&& contents.len() == urls@.len()
            &&& forall|i: int| 0 <= i < urls@.len() ==> #[trigger] contents[i] == urls@[i]@
        },
        step matches DiscoveryStep::DialAll(dialings) ==> {
            &&& step@ matches StepView::DialAll(contents)
            &&& contents.len() == dialings@.len()
            &&& forall|i: int| 0 <= i < dialings@.len() ==> #[trigger] contents[i] == dialings@[i]@
        },
{
}

/// A step of a peer task shows what is to be done, and a plan what the task is for.
pub proof fn law_task_step_shows_what_to_do(step: TaskStep, plan: PeerPlan)
    ensures
        step matches TaskStep::Enter(list, entry) ==> step@ == TaskStepView::Enter(list@, entry@),
        step matches TaskStep::Wait(ms) ==> step@ == TaskStepView::Wait(ms as int),
        step matches TaskStep::Register(url, peer) ==> {
            &&& step@ matches TaskStepView::Register(my_url, peer_url)
            &&& my_url == url@
            &&& peer is None <==> peer_url is None
            &&& peer matches Some(other) ==> peer_url == Some(other@)
        },
        step is Attach <==> step@ is Attach,
        plan matches PeerPlan::Listen(list, url) ==> plan@ == PlanView::Listen(list@, url@),
        plan matches PeerPlan::Dial(dialing) ==> plan@ == PlanView::Dial(dialing@),
{
}

} // verus!
