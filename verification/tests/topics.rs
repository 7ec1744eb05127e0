use sgc_services::gdp::{Destination, FibChangeAction, FibStateChange, GDPName};
use sgc_services::topics::{
    attach_request, ros_topic_local_service_caller, ros_topic_remote_service_provider,
    TopicModificationRequest, TopicPlan, TopicRegistry,
};

const TOPIC: GDPName = GDPName([1, 2, 3, 4]);
const OTHER: GDPName = GDPName([1, 2, 3, 5]);

fn add(stream: u32) -> TopicModificationRequest<u32> {
    attach_request("/srv", "pkg/srv/Type", &vec![7], stream)
}

#[test]
fn attach_request_carries_the_stream() {
    let request = add(42);
    assert_eq!(request.action, FibChangeAction::ADD);
    assert_eq!(request.stream, Some(42));
    assert_eq!(request.topic_name, "/srv");
    assert_eq!(request.topic_type, "pkg/srv/Type");
    assert_eq!(request.certificate, vec![7]);
}

#[test]
fn provider_directs_requests_out_and_responses_back() {
    let mut registry = TopicRegistry::new();
    match ros_topic_remote_service_provider(&mut registry, add(5), TOPIC) {
        TopicPlan::Attach(attachment) => {
            assert_eq!(
                attachment.updates,
                vec![
                    FibStateChange {
                        action: FibChangeAction::ADD,
                        topic_gdp_name: TOPIC,
                        forward_destination: Some(Destination::Rtc),
                    },
                    FibStateChange {
                        action: FibChangeAction::RESPONSE,
                        topic_gdp_name: TOPIC,
                        forward_destination: Some(Destination::Ros),
                    },
                ]
            );
            assert_eq!(attachment.stream, 5);
            let endpoint = attachment.endpoint.unwrap();
            assert_eq!(endpoint.topic_name, "/srv");
            assert_eq!(endpoint.topic_type, "pkg/srv/Type");
        }
        other => panic!("{:?}", other),
    }
    assert!(registry.contains(TOPIC));
    assert!(!registry.contains(OTHER));
}

#[test]
fn caller_directs_packets_in() {
    let mut registry = TopicRegistry::new();
    match ros_topic_local_service_caller(&mut registry, add(6), TOPIC) {
        TopicPlan::Attach(attachment) => {
            assert_eq!(
                attachment.updates,
                vec![FibStateChange {
                    action: FibChangeAction::ADD,
                    topic_gdp_name: TOPIC,
                    forward_destination: Some(Destination::Ros),
                }]
            );
            assert_eq!(attachment.stream, 6);
            assert!(attachment.endpoint.is_some());
        }
        other => panic!("{:?}", other),
    }
}

#[test]
fn a_topic_gets_one_endpoint_and_every_peer_is_attached() {
    let mut registry = TopicRegistry::new();
    let mut endpoints = 0;
    for (stream, topic) in [(1, TOPIC), (2, TOPIC), (3, OTHER), (4, TOPIC), (5, OTHER)] {
        match ros_topic_remote_service_provider(&mut registry, add(stream), topic) {
            TopicPlan::Attach(attachment) => {
                assert_eq!(attachment.stream, stream);
                assert_eq!(attachment.updates.len(), 2);
                if attachment.endpoint.is_some() {
                    endpoints += 1;
                }
            }
            other => panic!("{:?}", other),
        }
    }
    assert_eq!(endpoints, 2);
}

#[test]
fn deleting_a_topic_keeps_its_endpoint() {
    let mut registry = TopicRegistry::new();
    ros_topic_local_service_caller(&mut registry, add(1), TOPIC);
    let mut delete = add(2);
    delete.action = FibChangeAction::DELETE;
    assert!(matches!(
        ros_topic_local_service_caller(&mut registry, delete, TOPIC),
        TopicPlan::Update(_)
    ));
    assert!(registry.contains(TOPIC));
    match ros_topic_local_service_caller(&mut registry, add(3), TOPIC) {
        TopicPlan::Attach(attachment) => assert!(attachment.endpoint.is_none()),
        other => panic!("{:?}", other),
    }
}

#[test]
fn every_other_action_is_passed_on() {
    for action in [
        FibChangeAction::DELETE,
        FibChangeAction::RESUME,
        FibChangeAction::RESPONSE,
    ] {
        let mut registry = TopicRegistry::new();
        let request: TopicModificationRequest<u32> = TopicModificationRequest {
            action,
            stream: None,
            topic_name: "/srv".to_string(),
            topic_type: "t".to_string(),
            certificate: vec![],
        };
        match ros_topic_remote_service_provider(&mut registry, request, TOPIC) {
            TopicPlan::Update(update) => assert_eq!(
                update,
                FibStateChange { action, topic_gdp_name: TOPIC, forward_destination: None }
            ),
            other => panic!("{:?}", other),
        }
        assert!(!registry.contains(TOPIC));
    }
}

#[test]
fn names_differ_in_any_byte() {
    assert_eq!(TOPIC, GDPName([1, 2, 3, 4]));
    for other in [[0, 2, 3, 4], [1, 0, 3, 4], [1, 2, 0, 4], [1, 2, 3, 0]] {
        assert_ne!(TOPIC, GDPName(other));
    }
}
