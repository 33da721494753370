use chatroom_client::classify::{classify_line, event_from_captures, extract_username, ChatEvent};
use chatroom_client::room_state::{MemberList, MessageHistory, DEFAULT_RECORD_SIZE};

#[test]
fn history_keeps_last_record_size_lines() {
    let cap = DEFAULT_RECORD_SIZE as usize;
    let mut h = MessageHistory::new(cap);
    for i in 0..cap + 5 {
        h.push(format!("line {}", i));
    }
    assert_eq!(h.len(), cap);
    let lines = h.lines();
    assert_eq!(lines.len(), cap);
    for (k, l) in lines.iter().enumerate() {
        assert_eq!(*l, format!("line {}", k + 5));
    }
}

#[test]
fn history_below_capacity_keeps_everything() {
    let mut h = MessageHistory::new(3);
    h.push("a".to_string());
    h.push("b".to_string());
    assert_eq!(h.lines(), vec!["a".to_string(), "b".to_string()]);
    h.push("c".to_string());
    h.push("d".to_string());
    assert_eq!(h.lines(), vec!["b".to_string(), "c".to_string(), "d".to_string()]);
}

#[test]
fn history_of_capacity_zero_stays_empty() {
    let mut h = MessageHistory::new(0);
    h.push("a".to_string());
    assert_eq!(h.len(), 0);
}

#[test]
fn classify_arrival_and_departure() {
    assert_eq!(
        classify_line("alice has joined the chat room"),
        ChatEvent::Joined("alice".to_string())
    );
    assert_eq!(
        classify_line("bob has left the chat room\r\n"),
        ChatEvent::Left("bob".to_string())
    );
    assert_eq!(classify_line("alice: hello"), ChatEvent::Plain);
    assert_eq!(classify_line("a.b has joined the chat room"), ChatEvent::Plain);
    assert_eq!(classify_line(" has joined the chat room"), ChatEvent::Plain);
}

#[test]
fn departure_pattern_wins() {
    assert_eq!(
        event_from_captures(Some("x".to_string()), Some("y".to_string())),
        ChatEvent::Left("x".to_string())
    );
    assert_eq!(event_from_captures(None, Some("y".to_string())), ChatEvent::Joined("y".to_string()));
    assert_eq!(event_from_captures(None, None), ChatEvent::Plain);
}

#[test]
fn sender_of_a_chat_line() {
    assert_eq!(extract_username("carol: hi there"), Some("carol".to_string()));
    assert_eq!(extract_username("carol has joined the chat room"), None);
    assert_eq!(extract_username("no:"), Some("no".to_string()));
}

#[test]
fn join_then_leave_membership() {
    let mut m = MemberList::new();
    m.add("alice".to_string());
    m.apply(&classify_line("bob has joined the chat room"));
    assert_eq!(m.names(), vec!["alice".to_string(), "bob".to_string()]);
    m.apply(&classify_line("bob has left the chat room"));
    assert_eq!(m.names(), vec!["alice".to_string()]);
}

#[test]
fn duplicate_joins_are_kept_and_leave_removes_one() {
    let mut m = MemberList::new();
    m.apply(&ChatEvent::Joined("x".to_string()));
    m.apply(&ChatEvent::Joined("y".to_string()));
    m.apply(&ChatEvent::Joined("x".to_string()));
    assert_eq!(m.len(), 3);
    m.apply(&ChatEvent::Left("x".to_string()));
    assert_eq!(m.names(), vec!["y".to_string(), "x".to_string()]);
    m.apply(&ChatEvent::Left("nobody".to_string()));
    assert_eq!(m.names(), vec!["y".to_string(), "x".to_string()]);
    m.apply(&ChatEvent::Plain);
    assert_eq!(m.len(), 2);
}

#[test]
fn members_seeded_in_order() {
    let mut m = MemberList::new();
    m.add_all(vec!["a".to_string(), "b".to_string()]);
    m.add_all(vec!["a".to_string()]);
    assert_eq!(m.names(), vec!["a".to_string(), "b".to_string(), "a".to_string()]);
}
