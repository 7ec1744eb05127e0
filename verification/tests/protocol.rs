use sgc_services::discovery::{create_new_local_service_caller, create_new_remote_service_provider};
use sgc_services::kvs::KeyspaceEvent;
use sgc_services::protocol::{
    CallerRun, DiscoveryEvent, DiscoveryStep, PeerTask, ProviderRun, TaskStep,
};

const TOPIC: &str = "10,20,30,40";
const PUBLISHER: &str = "1,2,3,4";
const SUBSCRIBER: &str = "5,6,7,8";
const MAILBOX: &str = "10,20,30,40,1,2,3,4,5,6,7,8";

fn strings(list: &[&str]) -> Vec<String> {
    list.iter().map(|s| s.to_string()).collect()
}

fn provider() -> ProviderRun {
    ProviderRun::new(create_new_remote_service_provider(TOPIC, PUBLISHER))
}

fn caller() -> CallerRun {
    CallerRun::new(create_new_local_service_caller(TOPIC, SUBSCRIBER))
}

fn steps_of(task: &mut PeerTask) -> Vec<TaskStep> {
    let mut steps = vec![];
    while let Some(step) = task.next() {
        steps.push(step);
    }
    steps
}

/// A provider that has read its first list, and what it does about it.
fn watching_provider(subscribers: &[&str]) -> (ProviderRun, Vec<String>) {
    let mut run = provider();
    run.next_step(DiscoveryEvent::Begin);
    run.next_step(DiscoveryEvent::Allowed);
    run.next_step(DiscoveryEvent::Subscribed);
    match run.next_step(DiscoveryEvent::ListRead(strings(subscribers))) {
        Some(DiscoveryStep::ListenAll(urls)) => (run, urls),
        other => panic!("{:?}", other),
    }
}

/// A caller that is done with the peers of its first list.
fn watching_caller(publishers: &[&str]) -> CallerRun {
    let mut run = caller();
    run.next_step(DiscoveryEvent::Begin);
    run.next_step(DiscoveryEvent::Allowed);
    run.next_step(DiscoveryEvent::Subscribed);
    run.next_step(DiscoveryEvent::Entered);
    run.next_step(DiscoveryEvent::ListRead(strings(publishers)));
    assert!(matches!(
        run.next_step(DiscoveryEvent::PeersDone),
        Some(DiscoveryStep::AwaitMessage)
    ));
    run
}

#[test]
fn a_caller_subscribes_enters_and_reads() {
    let mut run = caller();
    assert!(matches!(
        run.next_step(DiscoveryEvent::Begin),
        Some(DiscoveryStep::AllowNotifications)
    ));
    match run.next_step(DiscoveryEvent::Allowed) {
        Some(DiscoveryStep::Subscribe(channel)) => {
            assert_eq!(channel, "__keyspace@0__:10,20,30,40-pub")
        }
        other => panic!("{:?}", other),
    }
    match run.next_step(DiscoveryEvent::Subscribed) {
        Some(DiscoveryStep::Enter(list, entry)) => {
            assert_eq!(list, "10,20,30,40-sub");
            assert_eq!(entry, SUBSCRIBER);
        }
        other => panic!("{:?}", other),
    }
    match run.next_step(DiscoveryEvent::Entered) {
        Some(DiscoveryStep::ReadList(list)) => assert_eq!(list, "10,20,30,40-pub"),
        other => panic!("{:?}", other),
    }
    match run.next_step(DiscoveryEvent::ListRead(strings(&[MAILBOX, "for another"]))) {
        Some(DiscoveryStep::DialAll(dialings)) => {
            assert_eq!(dialings.len(), 1);
            assert_eq!(dialings[0].peer_dialing_url, MAILBOX);
            assert_eq!(dialings[0].my_signaling_url, "10,20,30,40,5,6,7,8,1,2,3,4");
        }
        other => panic!("{:?}", other),
    }
}

#[test]
fn a_caller_is_done_with_its_first_peers_before_it_watches() {
    let mut run = caller();
    run.next_step(DiscoveryEvent::Begin);
    run.next_step(DiscoveryEvent::Allowed);
    run.next_step(DiscoveryEvent::Subscribed);
    run.next_step(DiscoveryEvent::Entered);
    run.next_step(DiscoveryEvent::ListRead(vec![]));
    assert!(run.next_step(DiscoveryEvent::Notified(KeyspaceEvent::Pushed)).is_none());
    assert!(matches!(
        run.next_step(DiscoveryEvent::PeersDone),
        Some(DiscoveryStep::AwaitMessage)
    ));
}

#[test]
fn a_provider_subscribes_and_reads() {
    let mut run = provider();
    assert!(matches!(
        run.next_step(DiscoveryEvent::Begin),
        Some(DiscoveryStep::AllowNotifications)
    ));
    match run.next_step(DiscoveryEvent::Allowed) {
        Some(DiscoveryStep::Subscribe(channel)) => {
            assert_eq!(channel, "__keyspace@0__:10,20,30,40-sub")
        }
        other => panic!("{:?}", other),
    }
    match run.next_step(DiscoveryEvent::Subscribed) {
        Some(DiscoveryStep::ReadList(list)) => assert_eq!(list, "10,20,30,40-sub"),
        other => panic!("{:?}", other),
    }
    match run.next_step(DiscoveryEvent::ListRead(strings(&[SUBSCRIBER]))) {
        Some(DiscoveryStep::ListenAll(urls)) => assert_eq!(urls, strings(&[MAILBOX])),
        other => panic!("{:?}", other),
    }
}

#[test]
fn what_comes_out_of_turn_changes_nothing() {
    let mut run = caller();
    assert!(run.next_step(DiscoveryEvent::Subscribed).is_none());
    assert!(run.next_step(DiscoveryEvent::ListRead(vec![])).is_none());
    assert!(run.next_step(DiscoveryEvent::Begin).is_some());
    assert!(run.next_step(DiscoveryEvent::Begin).is_none());
    let mut run = provider();
    assert!(run.next_step(DiscoveryEvent::Allowed).is_none());
    assert!(run.next_step(DiscoveryEvent::Begin).is_some());
    assert!(run.next_step(DiscoveryEvent::Entered).is_none());
    assert!(run.next_step(DiscoveryEvent::Allowed).is_some());
}

#[test]
fn a_provider_serves_whoever_is_pushed_later() {
    let (mut run, _) = watching_provider(&["9,9,9,9"]);
    match run.next_step(DiscoveryEvent::Notified(KeyspaceEvent::Pushed)) {
        Some(DiscoveryStep::ReadList(list)) => assert_eq!(list, "10,20,30,40-sub"),
        other => panic!("{:?}", other),
    }
    match run.next_step(DiscoveryEvent::ListRead(strings(&[SUBSCRIBER, "9,9,9,9"]))) {
        Some(DiscoveryStep::Listen(url)) => assert_eq!(url, MAILBOX),
        other => panic!("{:?}", other),
    }
    assert!(run.next_step(DiscoveryEvent::Notified(KeyspaceEvent::Pushed)).is_none());
    assert!(matches!(
        run.next_step(DiscoveryEvent::PeerAttached),
        Some(DiscoveryStep::AwaitMessage)
    ));
    run.next_step(DiscoveryEvent::Notified(KeyspaceEvent::Pushed));
    assert!(matches!(
        run.next_step(DiscoveryEvent::ListRead(strings(&["9,9,9,9"]))),
        Some(DiscoveryStep::AwaitMessage)
    ));
}

#[test]
fn a_caller_dials_whatever_is_left_later() {
    let mut run = watching_caller(&["10,20,30,40,4,4,4,4,5,6,7,8"]);
    match run.next_step(DiscoveryEvent::Notified(KeyspaceEvent::Pushed)) {
        Some(DiscoveryStep::ReadList(list)) => assert_eq!(list, "10,20,30,40-pub"),
        other => panic!("{:?}", other),
    }
    match run.next_step(DiscoveryEvent::ListRead(strings(&[MAILBOX]))) {
        Some(DiscoveryStep::Dial(dialing)) => assert_eq!(dialing.peer_dialing_url, MAILBOX),
        other => panic!("{:?}", other),
    }
    assert!(matches!(
        run.next_step(DiscoveryEvent::PeerAttached),
        Some(DiscoveryStep::AwaitMessage)
    ));
    for head in ["10,20,30,40,4,4,4,4,5,6,7,8", "10,20,30,40,1,2,3,4,0,0,0,0"] {
        run.next_step(DiscoveryEvent::Notified(KeyspaceEvent::Pushed));
        assert!(matches!(
            run.next_step(DiscoveryEvent::ListRead(strings(&[head]))),
            Some(DiscoveryStep::AwaitMessage)
        ));
    }
}

#[test]
fn other_notifications_are_passed_over() {
    let (mut run, _) = watching_provider(&[]);
    assert!(matches!(
        run.next_step(DiscoveryEvent::Notified(KeyspaceEvent::Ignored)),
        Some(DiscoveryStep::AwaitMessage)
    ));
    assert!(matches!(run.next_step(DiscoveryEvent::Quiet), Some(DiscoveryStep::AwaitMessage)));
    let mut run = watching_caller(&[]);
    assert!(matches!(
        run.next_step(DiscoveryEvent::Notified(KeyspaceEvent::Ignored)),
        Some(DiscoveryStep::AwaitMessage)
    ));
    assert!(matches!(run.next_step(DiscoveryEvent::Lost), Some(DiscoveryStep::AwaitMessage)));
}

/// A provider that is to end waits for its first peers, and then ends.
fn assert_ends(mut run: ProviderRun, event: DiscoveryEvent) {
    assert!(matches!(run.next_step(event), Some(DiscoveryStep::JoinPeers)));
    assert!(run.next_step(DiscoveryEvent::Notified(KeyspaceEvent::Pushed)).is_none());
    assert!(run.next_step(DiscoveryEvent::StepFailed).is_none());
    assert!(matches!(run.next_step(DiscoveryEvent::PeersDone), Some(DiscoveryStep::Return)));
    assert!(run.next_step(DiscoveryEvent::PeersDone).is_none());
    assert!(run.next_step(DiscoveryEvent::Quiet).is_none());
}

/// A caller that is to give up does so.
fn assert_gives_up(mut run: CallerRun, event: DiscoveryEvent) {
    assert!(matches!(run.next_step(event), Some(DiscoveryStep::Fail)));
    assert!(run.next_step(DiscoveryEvent::Lost).is_none());
    assert!(run.next_step(DiscoveryEvent::PeersDone).is_none());
}

#[test]
fn a_provider_that_cannot_watch_waits_for_its_first_peers() {
    assert_ends(watching_provider(&[SUBSCRIBER]).0, DiscoveryEvent::Lost);
    assert_ends(
        watching_provider(&[]).0,
        DiscoveryEvent::Notified(KeyspaceEvent::Unreadable),
    );
    for event in [DiscoveryEvent::ListRead(vec![]), DiscoveryEvent::StepFailed] {
        let (mut run, _) = watching_provider(&[SUBSCRIBER]);
        run.next_step(DiscoveryEvent::Notified(KeyspaceEvent::Pushed));
        assert_ends(run, event);
    }
    let (mut run, _) = watching_provider(&[]);
    run.next_step(DiscoveryEvent::Notified(KeyspaceEvent::Pushed));
    run.next_step(DiscoveryEvent::ListRead(strings(&[SUBSCRIBER])));
    assert_ends(run, DiscoveryEvent::StepFailed);
}

#[test]
fn a_provider_gives_up_before_the_first_list() {
    for done in 0..3 {
        let mut run = provider();
        run.next_step(DiscoveryEvent::Begin);
        if done > 0 {
            run.next_step(DiscoveryEvent::Allowed);
        }
        if done > 1 {
            run.next_step(DiscoveryEvent::Subscribed);
        }
        assert!(matches!(run.next_step(DiscoveryEvent::StepFailed), Some(DiscoveryStep::Fail)));
        assert!(run.next_step(DiscoveryEvent::PeersDone).is_none());
    }
}

#[test]
fn a_caller_that_cannot_go_on_gives_up() {
    assert_gives_up(
        watching_caller(&[]),
        DiscoveryEvent::Notified(KeyspaceEvent::Unreadable),
    );
    assert_gives_up(watching_caller(&[]), DiscoveryEvent::Quiet);
    for event in [DiscoveryEvent::ListRead(vec![]), DiscoveryEvent::StepFailed] {
        let mut run = watching_caller(&[]);
        run.next_step(DiscoveryEvent::Notified(KeyspaceEvent::Pushed));
        assert_gives_up(run, event);
    }
    let mut run = watching_caller(&[]);
    run.next_step(DiscoveryEvent::Notified(KeyspaceEvent::Pushed));
    run.next_step(DiscoveryEvent::ListRead(strings(&[MAILBOX])));
    assert_gives_up(run, DiscoveryEvent::StepFailed);
    let mut run = caller();
    run.next_step(DiscoveryEvent::Begin);
    run.next_step(DiscoveryEvent::Allowed);
    run.next_step(DiscoveryEvent::Subscribed);
    assert_gives_up(run, DiscoveryEvent::StepFailed);
}

#[test]
fn nothing_is_done_for_nobody() {
    let (_, urls) = watching_provider(&[]);
    assert!(urls.is_empty());
    let mut run = caller();
    run.next_step(DiscoveryEvent::Begin);
    run.next_step(DiscoveryEvent::Allowed);
    run.next_step(DiscoveryEvent::Subscribed);
    run.next_step(DiscoveryEvent::Entered);
    match run.next_step(DiscoveryEvent::ListRead(vec![])) {
        Some(DiscoveryStep::DialAll(dialings)) => assert!(dialings.is_empty()),
        other => panic!("{:?}", other),
    }
}

#[test]
fn listening_leaves_the_address_first() {
    let (run, urls) = watching_provider(&[SUBSCRIBER]);
    let mut task = run.listen_task(urls[0].clone());
    assert_eq!(
        steps_of(&mut task),
        vec![
            TaskStep::Enter("10,20,30,40-pub".to_string(), MAILBOX.to_string()),
            TaskStep::Register(MAILBOX.to_string(), None),
            TaskStep::Attach,
        ]
    );
    assert_eq!(task.next(), None);
}

#[test]
fn dialing_waits_first() {
    let mut run = watching_caller(&[]);
    run.next_step(DiscoveryEvent::Notified(KeyspaceEvent::Pushed));
    let dialing = match run.next_step(DiscoveryEvent::ListRead(strings(&[MAILBOX]))) {
        Some(DiscoveryStep::Dial(dialing)) => dialing,
        other => panic!("{:?}", other),
    };
    assert_eq!(
        steps_of(&mut PeerTask::dial(dialing)),
        vec![
            TaskStep::Wait(1000),
            TaskStep::Register(
                "10,20,30,40,5,6,7,8,1,2,3,4".to_string(),
                Some(MAILBOX.to_string())
            ),
            TaskStep::Attach,
        ]
    );
}
