use chatroom_client::classify::ChatEvent;
use chatroom_client::relay::{RelayAction, RelayEngine, RelayInput, OUTBOUND_QUEUE_CAPACITY};

#[test]
fn outgoing_lines_are_sent_in_order() {
    assert_eq!(OUTBOUND_QUEUE_CAPACITY, 10);
    let mut e = RelayEngine::new();
    let mut sent = vec![];
    for line in ["hello", "world"] {
        match e.step(RelayInput::Outgoing(line.to_string())) {
            RelayAction::Send(s) => sent.push(s),
            other => panic!("unexpected {:?}", other),
        }
    }
    assert_eq!(sent, vec!["hello".to_string(), "world".to_string()]);
    assert!(!e.is_terminated());
}

#[test]
fn end_of_stream_disconnects_and_stops() {
    let mut e = RelayEngine::new();
    assert!(matches!(e.step(RelayInput::Received(vec![])), RelayAction::Disconnect));
    assert!(e.is_terminated());
    assert!(matches!(e.step(RelayInput::Outgoing("late".to_string())), RelayAction::Idle));
    assert!(matches!(e.step(RelayInput::Received(b"hi".to_vec())), RelayAction::Idle));
    assert!(matches!(e.step(RelayInput::ReadFailed), RelayAction::Idle));
}

#[test]
fn read_failure_and_closed_queue_disconnect() {
    let mut e = RelayEngine::new();
    assert!(matches!(e.step(RelayInput::ReadFailed), RelayAction::Disconnect));
    let mut f = RelayEngine::new();
    assert!(matches!(f.step(RelayInput::QueueClosed), RelayAction::Disconnect));
    assert!(f.is_terminated());
}

#[test]
fn received_chunk_is_classified_and_trimmed() {
    let mut e = RelayEngine::new();
    match e.step(RelayInput::Received(b"dave has joined the chat room\r\n".to_vec())) {
        RelayAction::Record { event, line } => {
            assert_eq!(event, ChatEvent::Joined("dave".to_string()));
            assert_eq!(line, "dave has joined the chat room");
        }
        other => panic!("unexpected {:?}", other),
    }
    match e.step(RelayInput::Received(b"dave: hi  \n".to_vec())) {
        RelayAction::Record { event, line } => {
            assert_eq!(event, ChatEvent::Plain);
            assert_eq!(line, "dave: hi");
        }
        other => panic!("unexpected {:?}", other),
    }
    assert!(!e.is_terminated());
}
