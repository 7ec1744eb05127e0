use sgc_services::gdp::{FibChangeAction, GDPName};
use sgc_services::manager::{
    crypto_path, ros_service_manager, Discovery, ManagerAction, OperationQueue, ROSTopicRequest,
    RosTopicStatus, ServiceManager, NODE_START_DELAY_MS,
};
use sgc_services::topics::{
    ros_topic_local_service_caller, ros_topic_remote_service_provider, TopicPlan, TopicRegistry,
};

fn request(api_op: &str, ros_op: &str) -> ROSTopicRequest {
    ROSTopicRequest {
        api_op: api_op.to_string(),
        ros_op: ros_op.to_string(),
        topic_name: "/add_two_ints".to_string(),
        topic_type: "example_interfaces/srv/AddTwoInts".to_string(),
    }
}

fn decide(api_op: &str, ros_op: &str) -> ManagerAction<u32> {
    ros_service_manager(request(api_op, ros_op), &vec![1, 2, 3])
}

#[test]
fn default_crypto_path_names_the_test_certificate() {
    assert_eq!(
        crypto_path(None),
        "./sgc_launch/configs/crypto/test_cert/test_cert-private.pem"
    );
}

#[test]
fn configured_crypto_path_is_taken_as_it_is() {
    assert_eq!(crypto_path(Some("/etc/sgc.pem".to_string())), "/etc/sgc.pem");
}

#[test]
fn adding_a_client_dials_publishers() {
    match decide("add", "client") {
        ManagerAction::Start(start) => {
            assert_eq!(start.discovery, Discovery::CreateNewLocalServiceCaller);
            assert_eq!(start.queue, OperationQueue::RemoteServiceProvider);
            assert_eq!(start.topic_name, "/add_two_ints");
            assert_eq!(start.topic_type, "example_interfaces/srv/AddTwoInts");
            assert_eq!(start.certificate, vec![1, 2, 3]);
        }
        other => panic!("{:?}", other),
    }
}

#[test]
fn adding_a_service_listens_for_subscribers() {
    match decide("add", "service") {
        ManagerAction::Start(start) => {
            assert_eq!(start.discovery, Discovery::CreateNewRemoteServiceProvider);
            assert_eq!(start.queue, OperationQueue::LocalServiceCaller);
        }
        other => panic!("{:?}", other),
    }
}

fn expect_modification(api_op: &str, ros_op: &str, queue: OperationQueue, change: FibChangeAction) {
    match decide(api_op, ros_op) {
        ManagerAction::Modify(to, request) => {
            assert_eq!(to, queue);
            assert_eq!(request.action, change);
            assert!(request.stream.is_none());
            assert_eq!(request.topic_name, "/add_two_ints");
            assert_eq!(request.topic_type, "example_interfaces/srv/AddTwoInts");
            assert_eq!(request.certificate, vec![1, 2, 3]);
        }
        other => panic!("{:?}", other),
    }
}

#[test]
fn modifications_go_to_the_queue_of_their_role() {
    let provider = OperationQueue::RemoteServiceProvider;
    let caller = OperationQueue::LocalServiceCaller;
    expect_modification("del", "pub", provider, FibChangeAction::DELETE);
    expect_modification("del", "sub", caller, FibChangeAction::DELETE);
    expect_modification("resume", "pub", provider, FibChangeAction::RESUME);
    expect_modification("resume", "sub", caller, FibChangeAction::RESUME);
}

#[test]
fn unknown_roles_change_nothing() {
    for (api_op, ros_op) in [
        ("add", "pub"),
        ("add", "sub"),
        ("add", ""),
        ("del", "client"),
        ("del", "service"),
        ("resume", "noop"),
    ] {
        match decide(api_op, ros_op) {
            ManagerAction::UnknownAction(role) => assert_eq!(role, ros_op),
            other => panic!("{:?}", other),
        }
    }
}

#[test]
fn unknown_operations_are_not_handled() {
    for api_op in ["", "ADD", "delete", "pause", "add "] {
        match decide(api_op, "pub") {
            ManagerAction::NotHandled(operation) => assert_eq!(operation, api_op),
            other => panic!("{:?}", other),
        }
    }
}

#[test]
fn a_modification_is_one_change_in_either_task() {
    let topic = GDPName([9, 8, 7, 6]);
    for ros_op in ["pub", "sub"] {
        for api_op in ["del", "resume"] {
            let (queue, request) = match decide(api_op, ros_op) {
                ManagerAction::Modify(queue, request) => (queue, request),
                other => panic!("{:?}", other),
            };
            let change = request.action;
            let mut registry = TopicRegistry::new();
            let plan = match queue {
                OperationQueue::RemoteServiceProvider => {
                    ros_topic_remote_service_provider(&mut registry, request, topic)
                }
                OperationQueue::LocalServiceCaller => {
                    ros_topic_local_service_caller(&mut registry, request, topic)
                }
            };
            match plan {
                TopicPlan::Update(update) => {
                    assert_eq!(update.action, change);
                    assert_eq!(update.topic_gdp_name, topic);
                    assert_eq!(update.forward_destination, None);
                }
                other => panic!("{:?}", other),
            }
            assert!(!registry.contains(topic));
        }
    }
}

#[test]
fn status_compares_by_action() {
    let status = RosTopicStatus { action: "pub".to_string() };
    assert_eq!(status, status.clone());
    assert_ne!(status, RosTopicStatus { action: "sub".to_string() });
}

#[test]
fn the_manager_uses_the_certificate_it_read() {
    let mut manager = ServiceManager::new();
    manager.on_certificate(vec![7, 8]);
    for _ in 0..2 {
        match manager.on_request::<u32>(request("add", "service")) {
            ManagerAction::Start(start) => assert_eq!(start.certificate, vec![7, 8]),
            other => panic!("{:?}", other),
        }
        match manager.on_request::<u32>(request("del", "sub")) {
            ManagerAction::Modify(_, request) => assert_eq!(request.certificate, vec![7, 8]),
            other => panic!("{:?}", other),
        }
    }
}

#[test]
fn both_roles_are_started_on_the_same_topic() {
    match (decide("add", "client"), decide("add", "service")) {
        (ManagerAction::Start(client), ManagerAction::Start(service)) => {
            assert_eq!(client.topic_name, service.topic_name);
            assert_eq!(client.topic_type, service.topic_type);
            assert_eq!(client.certificate, service.certificate);
            assert_ne!(client.queue, service.queue);
        }
        other => panic!("{:?}", other),
    }
}

#[test]
fn the_second_ros_node_is_created_later() {
    assert_eq!(NODE_START_DELAY_MS, 500);
}

#[test]
fn topics_are_exposed_on_request() {
    let mut started = vec![];
    for (api_op, ros_op) in [
        ("add", "service"),
        ("del", "pub"),
        ("add", "pub"),
        ("scan", "service"),
        ("add", "client"),
        ("resume", "sub"),
    ] {
        if let ManagerAction::Start(start) = decide(api_op, ros_op) {
            assert_eq!(start.topic_name, "/add_two_ints");
            started.push(start.discovery);
        }
    }
    assert_eq!(
        started,
        vec![
            Discovery::CreateNewRemoteServiceProvider,
            Discovery::CreateNewLocalServiceCaller
        ]
    );
}
