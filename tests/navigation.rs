use chatroom_client::app::{
    App, ChatRoomMode, CreateRoomError, CurrentScreen, CurrentSelection, JoinRoomError,
};
use chatroom_client::codec::RoomDescriptor;
use chatroom_client::navigation::{Command, JoinFailure, Key};

fn type_text(app: &mut App, text: &str) {
    for c in text.chars() {
        assert_eq!(app.handle_key(Key::Char(c)), Command::Nothing);
    }
}

fn room(id: &str, locked: bool) -> RoomDescriptor {
    RoomDescriptor { room_id: id.to_string(), room_name: format!("name of {}", id), has_password: locked }
}

#[test]
fn entry_screen_switches_and_quits() {
    let mut app = App::new();
    assert_eq!(app.handle_key(Key::Tab), Command::Nothing);
    assert_eq!(app.current_selection, CurrentSelection::Join);
    assert_eq!(app.handle_key(Key::Tab), Command::Nothing);
    assert_eq!(app.current_selection, CurrentSelection::Create);
    assert_eq!(app.handle_key(Key::Char('q')), Command::Quit);
    assert_eq!(app.handle_key(Key::Enter), Command::Nothing);
    assert_eq!(app.current_screen, CurrentScreen::Create);
}

#[test]
fn create_flow_without_password() {
    let mut app = App::new();
    app.handle_key(Key::Enter);
    type_text(&mut app, "alice");
    app.handle_key(Key::Tab);
    type_text(&mut app, "lobby");
    app.handle_key(Key::Backspace);
    assert_eq!(app.room_name, "lobb");
    assert_eq!(app.handle_key(Key::Enter), Command::Nothing);
    assert!(app.password_prompt);
    assert_eq!(
        app.handle_key(Key::Char('n')),
        Command::CreateRoom { username: "alice".to_string(), room_name: "lobb".to_string(), password: None }
    );
    app.on_room_created(Some("ROOM0001".to_string()));
    assert_eq!(app.current_screen, CurrentScreen::Chat);
    assert_eq!(app.room_id, "ROOM0001");
}

#[test]
fn create_flow_reports_errors() {
    let mut app = App::new();
    app.handle_key(Key::Enter);
    app.handle_key(Key::Enter);
    assert_eq!(app.create_room_error, Some(CreateRoomError::InvalidUsernameLength));
    type_text(&mut app, "a b");
    assert_eq!(app.create_room_error, None);
    app.handle_key(Key::Tab);
    type_text(&mut app, "room");
    app.handle_key(Key::Enter);
    assert_eq!(app.create_room_error, Some(CreateRoomError::InvalidUsernameChar));
    app.handle_key(Key::Esc);
    assert_eq!(app.current_screen, CurrentScreen::Entry);
    assert!(app.username.is_empty());
    assert!(app.room_name.is_empty());
}

#[test]
fn create_flow_with_password() {
    let mut app = App::new();
    app.handle_key(Key::Enter);
    type_text(&mut app, "bob");
    app.handle_key(Key::Tab);
    type_text(&mut app, "den");
    app.handle_key(Key::Enter);
    app.handle_key(Key::Char('y'));
    assert_eq!(app.current_screen, CurrentScreen::CreatePassword);
    type_text(&mut app, "abc");
    assert_eq!(app.handle_key(Key::Enter), Command::Nothing);
    assert_eq!(app.create_room_error, Some(CreateRoomError::InvalidPasswordChar));
    type_text(&mut app, "d");
    assert_eq!(
        app.handle_key(Key::Enter),
        Command::CreateRoom {
            username: "bob".to_string(),
            room_name: "den".to_string(),
            password: Some("abcd".to_string())
        }
    );
    app.on_room_created(None);
    assert_eq!(app.create_room_error, Some(CreateRoomError::ServerError));
}

#[test]
fn join_flow_lists_and_selects_rooms() {
    let mut app = App::new();
    app.handle_key(Key::Tab);
    app.handle_key(Key::Enter);
    assert_eq!(app.current_screen, CurrentScreen::Join);
    type_text(&mut app, "carol");
    app.handle_key(Key::Enter);
    assert_eq!(app.join_room_error, Some(JoinRoomError::RoomIdLengthError));
    app.handle_key(Key::Tab);
    type_text(&mut app, "ABCD1234");
    assert_eq!(app.handle_key(Key::Enter), Command::ListRooms);
    app.on_room_list(Some(vec![room("R1", false), room("R2", true)]));
    assert_eq!(app.current_screen, CurrentScreen::RoomSelect);
    app.handle_key(Key::Up);
    assert_eq!(app.room_idx, 0);
    app.handle_key(Key::Down);
    app.handle_key(Key::Down);
    assert_eq!(app.room_idx, 1);
    assert_eq!(app.handle_key(Key::Enter), Command::Nothing);
    assert_eq!(app.current_screen, CurrentScreen::PasswordCheck);
    type_text(&mut app, "pw");
    assert_eq!(
        app.handle_key(Key::Enter),
        Command::JoinRoom {
            username: "carol".to_string(),
            room_id: "R2".to_string(),
            password: Some("pw".to_string())
        }
    );
    app.on_room_joined(Err(JoinFailure::WrongPassword));
    assert_eq!(app.join_room_error, Some(JoinRoomError::WrongPassword));
    app.on_room_joined(Ok("R2".to_string()));
    assert_eq!(app.current_screen, CurrentScreen::Chat);
}

#[test]
fn join_flow_open_room_and_failures() {
    let mut app = App::new();
    app.current_screen = CurrentScreen::Join;
    app.on_room_list(None);
    assert_eq!(app.join_room_error, Some(JoinRoomError::ZeroRooms));
    app.on_room_list(Some(vec![room("R1", false)]));
    assert_eq!(app.current_screen, CurrentScreen::RoomSelect);
    app.username.push_str("dan");
    assert_eq!(
        app.handle_key(Key::Enter),
        Command::JoinRoom { username: "dan".to_string(), room_id: "R1".to_string(), password: None }
    );
    app.on_room_joined(Err(JoinFailure::Connection));
    assert_eq!(app.join_room_error, Some(JoinRoomError::RoomNotFound));
    assert_eq!(app.handle_key(Key::Char('r')), Command::ReloadRooms);
    app.on_rooms_reloaded(Some(vec![]));
    assert_eq!(app.current_screen, CurrentScreen::Join);
    assert_eq!(app.join_room_error, Some(JoinRoomError::ZeroRooms));
    assert!(app.room_lst.is_empty());
}

#[test]
fn chat_input_and_leaving() {
    let mut app = App::new();
    app.enter_room("R1".to_string());
    app.handle_key(Key::Char('x'));
    assert!(app.input.is_empty());
    app.handle_key(Key::Char('i'));
    assert_eq!(app.chat_room_mode, ChatRoomMode::Input);
    type_text(&mut app, "hey!");
    app.handle_key(Key::Backspace);
    assert_eq!(app.handle_key(Key::Enter), Command::Send("hey".to_string()));
    assert!(app.input.is_empty());
    app.handle_key(Key::Esc);
    assert_eq!(app.chat_room_mode, ChatRoomMode::Normal);
    app.handle_key(Key::Char('q'));
    assert!(app.exiting);
    app.handle_key(Key::Char('n'));
    assert!(!app.exiting);
    app.handle_key(Key::Char('q'));
    assert_eq!(app.handle_key(Key::Char('y')), Command::Leave);
}

#[test]
fn directory_failures_are_reported() {
    let mut app = App::new();
    app.current_screen = CurrentScreen::RoomSelect;
    app.room_lst = vec![room("R1", false)];
    app.on_rooms_reloaded(None);
    assert_eq!(app.join_room_error, Some(JoinRoomError::GetRoomListFailed));
    assert_eq!(app.current_screen, CurrentScreen::Join);
    app.on_rooms_reloaded(Some(vec![room("R5", false), room("R6", true)]));
    assert_eq!(app.room_lst.len(), 2);
    assert_eq!(app.room_idx, 0);
}

#[test]
fn password_check_reports_vanished_room() {
    let mut app = App::new();
    app.current_screen = CurrentScreen::PasswordCheck;
    app.room_lst = vec![room("R2", true)];
    app.on_room_joined(Err(JoinFailure::RoomNotFound));
    assert_eq!(app.join_room_error, Some(JoinRoomError::RoomNotFound));
    app.join_room_error = None;
    app.on_room_joined(Err(JoinFailure::Connection));
    assert_eq!(app.join_room_error, None);
    assert_eq!(app.handle_key(Key::Esc), Command::Nothing);
    assert_eq!(app.current_screen, CurrentScreen::RoomSelect);
}
