use sgc_services::kvs::{classify, keyspace_event, KeyspaceEvent, RespMessage};

#[test]
fn a_push_is_seen() {
    assert_eq!(
        keyspace_event(RespMessage::BulkString(b"lpush".to_vec())),
        KeyspaceEvent::Pushed
    );
    assert_eq!(
        keyspace_event(RespMessage::SimpleString("lpush".to_string())),
        KeyspaceEvent::Pushed
    );
}

#[test]
fn other_operations_are_ignored() {
    for operation in ["rpush", "LPUSH", "lpush ", "", "del"] {
        assert_eq!(
            keyspace_event(RespMessage::BulkString(operation.as_bytes().to_vec())),
            KeyspaceEvent::Ignored
        );
    }
    assert_eq!(
        keyspace_event(RespMessage::BulkString(vec![b'l', 0xff])),
        KeyspaceEvent::Ignored
    );
    assert_eq!(keyspace_event(RespMessage::Integer(-12)), KeyspaceEvent::Ignored);
}

#[test]
fn messages_without_text_are_unreadable() {
    for message in [
        RespMessage::Nil,
        RespMessage::Array,
        RespMessage::Error("lpush".to_string()),
    ] {
        assert_eq!(keyspace_event(message), KeyspaceEvent::Unreadable);
    }
}

#[test]
fn operations_are_classified() {
    assert_eq!(classify(Some("lpush".to_string())), KeyspaceEvent::Pushed);
    assert_eq!(classify(Some("lpop".to_string())), KeyspaceEvent::Ignored);
    assert_eq!(classify(None), KeyspaceEvent::Unreadable);
}
