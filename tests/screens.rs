use std::collections::VecDeque;

use chatroom_client::app::{
    App, ChatRoomMode, CreateRoomError, CurrentScreen, CurrentSelection, JoinRoomError,
};
use chatroom_client::command_parser::{Args, Operation};
use chatroom_client::layout::fit_newest_msg_into_screen;
use chatroom_client::validate::{
    check_create_input, check_join_input, check_password, has_whitespace, is_valid_string,
    is_valid_string_with_whitespace,
};

#[test]
fn new_app_starts_on_entry_screen() {
    let app = App::new();
    assert_eq!(app.current_screen, CurrentScreen::Entry);
    assert_eq!(app.current_selection, CurrentSelection::Create);
    assert_eq!(app.chat_room_mode, ChatRoomMode::Normal);
    assert_eq!(app.record_size, 100);
    assert!(app.username.is_empty());
    assert!(app.room_lst.is_empty());
}

#[test]
fn reinitialize_resets_state() {
    let mut app = App::new();
    app.username.push_str("alice");
    app.enter_room("ROOM0001".to_string());
    assert_eq!(app.current_screen, CurrentScreen::Chat);
    assert_eq!(app.room_id, "ROOM0001");
    app.exiting = true;
    app.reinitialize();
    assert_eq!(app.current_screen, CurrentScreen::Entry);
    assert!(app.room_id.is_empty());
    assert!(app.username.is_empty());
    assert!(!app.exiting);
}

#[test]
fn command_line_operations() {
    let a = Args { operation: Operation::Join { username: "u".to_string(), room_id: "r".to_string() } };
    assert_eq!(
        a.operation,
        Operation::Join { username: "u".to_string(), room_id: "r".to_string() }
    );
}

#[test]
fn character_rules() {
    assert!(is_valid_string("alice_01"));
    assert!(!is_valid_string("al ice"));
    assert!(!is_valid_string("al@ice"));
    assert!(is_valid_string_with_whitespace("my room!"));
    assert!(!is_valid_string_with_whitespace("my.room"));
    assert!(has_whitespace("a b"));
    assert!(!has_whitespace("ab"));
}

#[test]
fn create_input_errors_in_order() {
    assert_eq!(check_create_input("", "room"), Err(CreateRoomError::InvalidUsernameLength));
    assert_eq!(
        check_create_input(&"u".repeat(51), "room"),
        Err(CreateRoomError::InvalidUsernameLength)
    );
    assert_eq!(check_create_input("alice", ""), Err(CreateRoomError::InvalidRoomNameLength));
    assert_eq!(
        check_create_input("alice", &"r".repeat(101)),
        Err(CreateRoomError::InvalidRoomNameLength)
    );
    assert_eq!(check_create_input("al ice", "room"), Err(CreateRoomError::InvalidUsernameChar));
    assert_eq!(check_create_input("alice", "ro.om"), Err(CreateRoomError::InvalidRoomNameChar));
    assert_eq!(check_create_input("alice", "my room"), Ok(()));
    assert_eq!(check_create_input(&"u".repeat(50), &"r".repeat(100)), Ok(()));
}

#[test]
fn password_rules() {
    assert_eq!(check_password("abc"), Err(CreateRoomError::InvalidPasswordChar));
    assert_eq!(check_password(&"p".repeat(21)), Err(CreateRoomError::InvalidPasswordChar));
    assert_eq!(check_password("ab cd"), Err(CreateRoomError::InvalidPasswordChar));
    assert_eq!(check_password("abcd"), Ok(()));
}

#[test]
fn join_input_errors_in_order() {
    assert_eq!(check_join_input("alice", "short"), Err(JoinRoomError::RoomIdLengthError));
    assert_eq!(check_join_input("", "ABCD1234"), Err(JoinRoomError::InvalidUsernameLength));
    assert_eq!(check_join_input("a,b", "ABCD1234"), Err(JoinRoomError::InvalidUsername));
    assert_eq!(check_join_input("alice", "ABCD1234"), Ok(()));
}

#[test]
fn newest_messages_fit_screen() {
    let msgs: VecDeque<String> =
        vec!["aaaaaaaaaa".to_string(), "bbbbb".to_string(), "cccccccccccc".to_string()]
            .into_iter()
            .collect();
    // rows at width 5: 2, 1, 3
    let r = fit_newest_msg_into_screen(msgs.clone(), 5, 4);
    assert_eq!(r, VecDeque::from(vec!["bbbbb".to_string(), "cccccccccccc".to_string()]));
    let r = fit_newest_msg_into_screen(msgs.clone(), 5, 2);
    assert!(r.is_empty());
    let r = fit_newest_msg_into_screen(msgs, 5, 100);
    assert_eq!(r.len(), 3);
}
