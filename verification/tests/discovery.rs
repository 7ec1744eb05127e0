use sgc_services::discovery::{
    create_new_local_service_caller, create_new_remote_service_provider, PushedMailbox,
    DIAL_DELAY_MS,
};
use sgc_services::signaling::{
    dial, keyspace_topic, listener_of, make_url, publisher_topic, subscriber_topic, Dialing,
};

const TOPIC: &str = "10,20,30,40";
const PUBLISHER: &str = "1,2,3,4";
const SUBSCRIBER: &str = "5,6,7,8";

fn strings(list: &[&str]) -> Vec<String> {
    list.iter().map(|s| s.to_string()).collect()
}

#[test]
fn lists_are_named_after_the_topic() {
    assert_eq!(publisher_topic(TOPIC), "10,20,30,40-pub");
    assert_eq!(subscriber_topic(TOPIC), "10,20,30,40-sub");
    assert_eq!(keyspace_topic("x-sub"), "__keyspace@0__:x-sub");
    assert_ne!(publisher_topic("a"), subscriber_topic("a"));
    assert_ne!(publisher_topic("a"), publisher_topic("b"));
}

#[test]
fn each_end_watches_what_the_other_writes() {
    let provider = create_new_remote_service_provider(TOPIC, PUBLISHER);
    let caller = create_new_local_service_caller(TOPIC, SUBSCRIBER);
    assert_eq!(provider.watched_channel(), "__keyspace@0__:10,20,30,40-sub");
    assert_eq!(caller.watched_channel(), "__keyspace@0__:10,20,30,40-pub");
    assert_eq!(provider.watched_channel(), keyspace_topic(&caller.subscriber_topic()));
    assert_eq!(caller.watched_channel(), keyspace_topic(&provider.publisher_topic()));
    assert_eq!(provider.subscriber_topic(), caller.subscriber_topic());
    assert_eq!(provider.publisher_topic(), caller.publisher_topic());
    assert_eq!(caller.registration(), SUBSCRIBER);
}

#[test]
fn urls_hold_topic_listener_and_peer() {
    assert_eq!(
        make_url(TOPIC, PUBLISHER, SUBSCRIBER),
        "10,20,30,40,1,2,3,4,5,6,7,8"
    );
    assert_eq!(make_url("", "", ""), ",,");
}

#[test]
fn listener_is_read_back() {
    assert_eq!(listener_of("10,20,30,40,1,2,3,4,5,6,7,8"), "1,2,3,4");
    assert_eq!(listener_of(&make_url(TOPIC, "a,b,c,d", "x")), "a,b,c,d");
    assert_eq!(listener_of(",,,,,,,,"), ",,,");
}

#[test]
fn listener_of_short_addresses_is_what_there_is() {
    assert_eq!(listener_of(""), "");
    assert_eq!(listener_of("1,2,3"), "");
    assert_eq!(listener_of("1,2,3,4"), "");
    assert_eq!(listener_of("1,2,3,4,5"), "5");
    assert_eq!(listener_of("1,2,3,4,5,6"), "5,6");
    assert_eq!(listener_of("1,2,3,4,"), "");
    assert_eq!(listener_of("ä,ö,ü,ß,é,è"), "é,è");
}

#[test]
fn subscriber_dials_where_the_publisher_listens() {
    let mailbox = make_url(TOPIC, PUBLISHER, SUBSCRIBER);
    assert_eq!(
        dial(TOPIC, SUBSCRIBER, &mailbox),
        Some(Dialing {
            my_signaling_url: "10,20,30,40,5,6,7,8,1,2,3,4".to_string(),
            peer_dialing_url: mailbox.clone(),
        })
    );
    assert_eq!(dial(TOPIC, "5,6,7,9", &mailbox), None);
}

#[test]
fn subscriber_answers_to_names_that_its_own_ends() {
    let mailbox = make_url(TOPIC, PUBLISHER, "15,6,7,8");
    assert!(dial(TOPIC, "5,6,7,8", &mailbox).is_some());
    assert!(dial(TOPIC, "15,6,7,8", &mailbox).is_some());
    assert!(dial(TOPIC, "115,6,7,8", &mailbox).is_none());
    assert!(dial(TOPIC, "6,7,8,9", &mailbox).is_none());
}

#[test]
fn provider_listens_for_each_subscriber() {
    let mut provider = create_new_remote_service_provider(TOPIC, PUBLISHER);
    let urls = provider.start(strings(&["5,6,7,8", "9,9,9,9"]));
    assert_eq!(
        urls,
        strings(&["10,20,30,40,1,2,3,4,5,6,7,8", "10,20,30,40,1,2,3,4,9,9,9,9"])
    );
    let mut alone = create_new_remote_service_provider(TOPIC, PUBLISHER);
    assert!(alone.start(vec![]).is_empty());
}

#[test]
fn provider_passes_over_subscribers_of_the_start() {
    let mut provider = create_new_remote_service_provider(TOPIC, PUBLISHER);
    provider.start(strings(&["5,6,7,8"]));
    assert_eq!(provider.on_push(&strings(&["5,6,7,8"])), None);
    let url = "10,20,30,40,1,2,3,4,9,9,9,9".to_string();
    assert_eq!(provider.on_push(&strings(&["9,9,9,9", "5,6,7,8"])), Some(url.clone()));
    assert_eq!(provider.on_push(&strings(&["9,9,9,9", "5,6,7,8"])), Some(url));
}

#[test]
fn caller_dials_what_was_left_for_it() {
    let mut caller = create_new_local_service_caller(TOPIC, SUBSCRIBER);
    let dialings = caller.start(strings(&[
        "10,20,30,40,1,2,3,4,5,6,7,8",
        "10,20,30,40,1,2,3,4,9,9,9,9",
        "10,20,30,40,4,3,2,1,5,6,7,8",
    ]));
    assert_eq!(
        dialings,
        vec![
            Dialing {
                my_signaling_url: "10,20,30,40,5,6,7,8,1,2,3,4".to_string(),
                peer_dialing_url: "10,20,30,40,1,2,3,4,5,6,7,8".to_string(),
            },
            Dialing {
                my_signaling_url: "10,20,30,40,5,6,7,8,4,3,2,1".to_string(),
                peer_dialing_url: "10,20,30,40,4,3,2,1,5,6,7,8".to_string(),
            },
        ]
    );
}

#[test]
fn caller_decides_about_pushed_addresses() {
    let mut caller = create_new_local_service_caller(TOPIC, SUBSCRIBER);
    let known = "10,20,30,40,1,2,3,4,5,6,7,8";
    let foreign_known = "10,20,30,40,1,2,3,4,9,9,9,9";
    caller.start(strings(&[known, foreign_known]));
    assert_eq!(caller.on_push(&strings(&[known])), PushedMailbox::Known);
    assert_eq!(caller.on_push(&strings(&[foreign_known])), PushedMailbox::Known);
    assert_eq!(
        caller.on_push(&strings(&["10,20,30,40,1,2,3,4,0,0,0,0", known])),
        PushedMailbox::NotAddressed
    );
    assert_eq!(
        caller.on_push(&strings(&["10,20,30,40,8,8,8,8,5,6,7,8", known])),
        PushedMailbox::Dial(Dialing {
            my_signaling_url: "10,20,30,40,5,6,7,8,8,8,8,8".to_string(),
            peer_dialing_url: "10,20,30,40,8,8,8,8,5,6,7,8".to_string(),
        })
    );
}

#[test]
fn both_ends_meet() {
    let mut provider = create_new_remote_service_provider(TOPIC, PUBLISHER);
    let mut caller = create_new_local_service_caller(TOPIC, SUBSCRIBER);
    let left = provider.start(vec![caller.registration().to_string()]);
    let dialings = caller.start(left.clone());
    assert_eq!(dialings.len(), 1);
    assert_eq!(dialings[0].peer_dialing_url, left[0]);

    let late = create_new_local_service_caller(TOPIC, "7,7,7,7");
    let url = provider.on_push(&vec![late.registration().to_string()]).unwrap();
    match late.on_push(&vec![url.clone()]) {
        PushedMailbox::Dial(dialing) => assert_eq!(dialing.peer_dialing_url, url),
        other => panic!("{:?}", other),
    }
}

#[test]
fn dialing_waits_a_second() {
    assert_eq!(DIAL_DELAY_MS, 1000);
}
