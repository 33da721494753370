use std::collections::VecDeque;

use chatroom_client::classify::{message_kind, MessageKind};
use chatroom_client::layout::{
    fit_instructions_into_block, fit_msg_into_chat_block, room_page, wrap_words, ChatRow, RoomPage,
};

#[test]
fn wrap_words_packs_words_into_lines() {
    assert_eq!(wrap_words("aa bb cc", 6), vec!["aa bb ".to_string(), "cc ".to_string()]);
    assert_eq!(wrap_words("aa bb cc", 100), vec!["aa bb cc ".to_string()]);
}

#[test]
fn wrap_words_long_first_word_leaves_empty_line() {
    assert_eq!(
        wrap_words("abcdefgh ij", 4),
        vec!["".to_string(), "abcdefgh ".to_string(), "ij ".to_string()]
    );
}

#[test]
fn wrap_words_of_empty_text() {
    assert_eq!(wrap_words("", 5), vec![" ".to_string()]);
}

#[test]
fn kinds_of_messages() {
    assert_eq!(message_kind("me: hi", "me"), MessageKind::Own);
    assert_eq!(message_kind("you: hi", "me"), MessageKind::Other);
    assert_eq!(message_kind("you has joined the chat room", "me"), MessageKind::System);
}

#[test]
fn chat_block_keeps_newest_rows() {
    let msgs: VecDeque<String> = vec!["old: x".to_string(), "me: hello there friend".to_string(), "b: yo".to_string()]
        .into_iter()
        .collect();
    let rows = fit_msg_into_chat_block(msgs.clone(), 10, 4, "me");
    let expected: VecDeque<ChatRow> = vec![
        ChatRow { text: "me: hello ".to_string(), kind: MessageKind::Own },
        ChatRow { text: "there ".to_string(), kind: MessageKind::Own },
        ChatRow { text: "friend ".to_string(), kind: MessageKind::Own },
        ChatRow { text: "b: yo".to_string(), kind: MessageKind::Other },
    ]
    .into_iter()
    .collect();
    assert_eq!(rows, expected);
    let rows = fit_msg_into_chat_block(msgs.clone(), 10, 3, "me");
    assert_eq!(rows.len(), 1);
    assert_eq!(rows[0].text, "b: yo");
    let rows = fit_msg_into_chat_block(msgs, 10, 0, "me");
    assert!(rows.is_empty());
}

#[test]
fn instructions_are_wrapped_and_separated() {
    let lines = fit_instructions_into_block(&["'i' => switch to input mode", "'q' => exit"], 12);
    assert_eq!(
        lines,
        vec![
            "'i' => ".to_string(),
            "switch to ".to_string(),
            "input mode ".to_string(),
            " ".to_string(),
            "'q' => exit ".to_string(),
            " ".to_string(),
        ]
    );
}

#[test]
fn room_pages() {
    assert_eq!(room_page(0, 5, 8), RoomPage { start: 0, end: 2, current: 1, total: 3 });
    assert_eq!(room_page(4, 5, 8), RoomPage { start: 4, end: 5, current: 3, total: 3 });
    assert_eq!(room_page(2, 3, 1), RoomPage { start: 2, end: 3, current: 3, total: 3 });
    assert_eq!(room_page(1, 4, 100), RoomPage { start: 0, end: 4, current: 1, total: 1 });
}
