use vstd::prelude::*;
use vstd::string::*;

use crate::app::{
    App, AppView, ChatRoomMode, CreateRoomError, CreateRoomInput, CurrentScreen, CurrentSelection,
    JoinRoomError, JoinRoomInput,
};
use crate::classify::opt_text;
use crate::codec::{room_views, RoomDescriptor, RoomDescriptorView};
use crate::text::{pop_char, push_char};
use crate::validate::{
    check_create_input, check_join_input, check_password, create_input_error, join_input_error,
    password_rejected,
};

verus! {

/// A key that the user pressed.
#[derive(Debug, Clone, Copy, PartialEq, Eq, Structural)]
pub enum Key {
    Tab,
    Enter,
    Esc,
    Backspace,
    Up,
    Down,
    Char(char),
    Other,
}

/// What the screens ask the program to do after a key: nothing, quit, one of
/// the three handshakes, send a chat line, or leave the room (close the
/// outbound queue). The outcome of a handshake comes back through the
/// matching `on_...` method.
#[derive(Debug, PartialEq, Eq)]
pub enum Command {
    Nothing,
    Quit,
    CreateRoom { username: String, room_name: String, password: Option<String> },
    ListRooms,
    ReloadRooms,
    JoinRoom { username: String, room_id: String, password: Option<String> },
    Send(String),
    Leave,
}

pub enum CommandView {
    Nothing,
    Quit,
    CreateRoom { username: Seq<char>, room_name: Seq<char>, password: Option<Seq<char>> },
    ListRooms,
    ReloadRooms,
    JoinRoom { username: Seq<char>, room_id: Seq<char>, password: Option<Seq<char>> },
    Send(Seq<char>),
    Leave,
}

impl View for Command {
    type V = CommandView;

    open spec fn view(&self) -> CommandView {
        match self {
            Command::Nothing => CommandView::Nothing,
            Command::Quit => CommandView::Quit,
            Command::CreateRoom { username, room_name, password } => CommandView::CreateRoom {
                username: username@,
                room_name: room_name@,
                password: opt_text(*password),
            },
            Command::ListRooms => CommandView::ListRooms,
            Command::ReloadRooms => CommandView::ReloadRooms,
            Command::JoinRoom { username, room_id, password } => CommandView::JoinRoom {
                username: username@,
                room_id: room_id@,
                password: opt_text(*password),
            },
            Command::Send(s) => CommandView::Send(s@),
            Command::Leave => CommandView::Leave,
        }
    }
}

/// Why joining a room failed: the room is gone, the password is wrong, or
/// the connection failed.
#[derive(Debug, Clone, Copy, PartialEq, Eq, Structural)]
pub enum JoinFailure {
    RoomNotFound,
    WrongPassword,
    Connection,
}

/// `s` without its last character, if it has one.
pub open spec fn pop_last(s: Seq<char>) -> Seq<char> {
    if s.len() > 0 {
        s.drop_last()
    } else {
        s
    }
}

/// The entry screen: Tab switches the choice, Enter opens it, `q` quits.
pub open spec fn entry_key(s: AppView, k: Key) -> (AppView, CommandView) {
    match k {
        Key::Tab => (
            AppView {
                current_selection: match s.current_selection {
                    CurrentSelection::Create => CurrentSelection::Join,
                    CurrentSelection::Join => CurrentSelection::Create,
                },
                ..s
            },
            CommandView::Nothing,
        ),
        Key::Enter => (
            AppView {
                current_screen: match s.current_selection {
                    CurrentSelection::Create => CurrentScreen::Create,
                    CurrentSelection::Join => CurrentScreen::Join,
                },
                ..s
            },
            CommandView::Nothing,
        ),
        Key::Char(c) => if c == 'q' {
            (s, CommandView::Quit)
        } else {
            (s, CommandView::Nothing)
        },
        _ => (s, CommandView::Nothing),
    }
}

/// The question whether a new room gets a password: Esc goes back, `y` asks
/// for one, `n` creates the room without one.
pub open spec fn prompt_key(s: AppView, k: Key) -> (AppView, CommandView) {
    match k {
        Key::Esc => (
            AppView { password_prompt: false, create_room_error: None, ..s },
            CommandView::Nothing,
        ),
        Key::Char(c) => if c == 'y' {
            (
                AppView {
                    current_screen: CurrentScreen::CreatePassword,
                    create_room_error: None,
                    ..s
                },
                CommandView::Nothing,
            )
        } else if c == 'n' {
            (
                s,
                CommandView::CreateRoom {
                    username: s.username,
                    room_name: s.room_name,
                    password: None,
                },
            )
        } else {
            (s, CommandView::Nothing)
        },
        _ => (s, CommandView::Nothing),
    }
}

/// The create screen: type the user name and the room name, Tab between
/// them, Enter checks them and asks about a password, Esc goes back.
pub open spec fn create_key(s: AppView, k: Key) -> (AppView, CommandView) {
    match k {
        Key::Backspace => (
            match s.create_room_input {
                CreateRoomInput::Username => AppView {
                    username: pop_last(s.username),
                    create_room_error: None,
                    ..s
                },
                CreateRoomInput::RoomName => AppView {
                    room_name: pop_last(s.room_name),
                    create_room_error: None,
                    ..s
                },
            },
            CommandView::Nothing,
        ),
        Key::Tab => (
            AppView {
                create_room_input: match s.create_room_input {
                    CreateRoomInput::Username => CreateRoomInput::RoomName,
                    CreateRoomInput::RoomName => CreateRoomInput::Username,
                },
                ..s
            },
            CommandView::Nothing,
        ),
        Key::Enter => (
            match create_input_error(s.username, s.room_name) {
                Some(e) => AppView { create_room_error: Some(e), ..s },
                None => AppView { password_prompt: true, ..s },
            },
            CommandView::Nothing,
        ),
        Key::Char(c) => (
            match s.create_room_input {
                CreateRoomInput::Username => AppView {
                    username: s.username.push(c),
                    create_room_error: None,
                    ..s
                },
                CreateRoomInput::RoomName => AppView {
                    room_name: s.room_name.push(c),
                    create_room_error: None,
                    ..s
                },
            },
            CommandView::Nothing,
        ),
        Key::Esc => (
            AppView {
                username: Seq::empty(),
                room_name: Seq::empty(),
                create_room_error: None,
                current_screen: CurrentScreen::Entry,
                create_room_input: CreateRoomInput::Username,
                ..s
            },
            CommandView::Nothing,
        ),
        _ => (s, CommandView::Nothing),
    }
}

/// The password screen of a new room: type it, Esc goes back, Enter checks
/// it and creates the room.
pub open spec fn password_key(s: AppView, k: Key) -> (AppView, CommandView) {
    match k {
        Key::Char(c) => (
            AppView { password: s.password.push(c), create_room_error: None, ..s },
            CommandView::Nothing,
        ),
        Key::Backspace => (
            AppView { password: pop_last(s.password), create_room_error: None, ..s },
            CommandView::Nothing,
        ),
        Key::Esc => (
            AppView {
                password: Seq::empty(),
                current_screen: CurrentScreen::Create,
                create_room_error: None,
                password_prompt: false,
                ..s
            },
            CommandView::Nothing,
        ),
        Key::Enter => if password_rejected(s.password) {
            (
                AppView { create_room_error: Some(CreateRoomError::InvalidPasswordChar), ..s },
                CommandView::Nothing,
            )
        } else {
            (
                s,
                CommandView::CreateRoom {
                    username: s.username,
                    room_name: s.room_name,
                    password: Some(s.password),
                },
            )
        },
        _ => (s, CommandView::Nothing),
    }
}

/// The join screen: type the user name and the room id, Tab between them,
/// Enter checks them and asks for the directory, Esc goes back.
pub open spec fn join_key(s: AppView, k: Key) -> (AppView, CommandView) {
    match k {
        Key::Backspace => (
            match s.join_room_input {
                JoinRoomInput::Username => AppView {
                    username: pop_last(s.username),
                    join_room_error: None,
                    ..s
                },
                JoinRoomInput::RoomId => AppView {
                    room_id: pop_last(s.room_id),
                    join_room_error: None,
                    ..s
                },
            },
            CommandView::Nothing,
        ),
        Key::Char(c) => (
            match s.join_room_input {
                JoinRoomInput::Username => AppView {
                    username: s.username.push(c),
                    join_room_error: None,
                    ..s
                },
                JoinRoomInput::RoomId => AppView {
                    room_id: s.room_id.push(c),
                    join_room_error: None,
                    ..s
                },
            },
            CommandView::Nothing,
        ),
        Key::Tab => (
            AppView {
                join_room_input: match s.join_room_input {
                    JoinRoomInput::Username => JoinRoomInput::RoomId,
                    JoinRoomInput::RoomId => JoinRoomInput::Username,
                },
                ..s
            },
            CommandView::Nothing,
        ),
        Key::Enter => match join_input_error(s.username, s.room_id) {
            Some(e) => (AppView { join_room_error: Some(e), ..s }, CommandView::Nothing),
            None => (s, CommandView::ListRooms),
        },
        Key::Esc => (
            AppView {
                username: Seq::empty(),
                room_id: Seq::empty(),
                join_room_error: None,
                current_screen: CurrentScreen::Entry,
                ..s
            },
            CommandView::Nothing,
        ),
        _ => (s, CommandView::Nothing),
    }
}

/// The room list: Enter joins the highlighted room (or asks for its
/// password), Esc goes back, `r` reloads, the arrows move.
pub open spec fn select_key(s: AppView, k: Key) -> (AppView, CommandView) {
    match k {
        Key::Enter => if s.room_idx < s.room_lst.len() {
            if s.room_lst[s.room_idx as int].has_password {
                (AppView { current_screen: CurrentScreen::PasswordCheck, ..s }, CommandView::Nothing)
            } else {
                (
                    s,
                    CommandView::JoinRoom {
                        username: s.username,
                        room_id: s.room_lst[s.room_idx as int].room_id,
                        password: None,
                    },
                )
            }
        } else {
            (s, CommandView::Nothing)
        },
        Key::Esc => (AppView { current_screen: CurrentScreen::Join, ..s }, CommandView::Nothing),
        Key::Char(c) => if c == 'r' {
            (s, CommandView::ReloadRooms)
        } else {
            (s, CommandView::Nothing)
        },
        Key::Up => (
            AppView {
                room_idx: if s.room_idx > 0 {
                    (s.room_idx - 1) as usize
                } else {
                    0
                },
                ..s
            },
            CommandView::Nothing,
        ),
        Key::Down => (
            AppView {
                room_idx: if s.room_lst.len() > s.room_idx + 1 {
                    (s.room_idx + 1) as usize
                } else {
                    s.room_idx
                },
                ..s
            },
            CommandView::Nothing,
        ),
        _ => (s, CommandView::Nothing),
    }
}

/// The password screen of a room being joined: type it, Esc goes back,
/// Enter joins with it.
pub open spec fn check_key(s: AppView, k: Key) -> (AppView, CommandView) {
    match k {
        Key::Esc => (
            AppView {
                current_screen: CurrentScreen::RoomSelect,
                check_passwork: Seq::empty(),
                join_room_error: None,
                ..s
            },
            CommandView::Nothing,
        ),
        Key::Char(c) => (
            AppView { check_passwork: s.check_passwork.push(c), join_room_error: None, ..s },
            CommandView::Nothing,
        ),
        Key::Backspace => (
            AppView { check_passwork: pop_last(s.check_passwork), join_room_error: None, ..s },
            CommandView::Nothing,
        ),
        Key::Enter => if s.room_idx < s.room_lst.len() {
            (
                s,
                CommandView::JoinRoom {
                    username: s.username,
                    room_id: s.room_lst[s.room_idx as int].room_id,
                    password: Some(s.check_passwork),
                },
            )
        } else {
            (s, CommandView::Nothing)
        },
        _ => (s, CommandView::Nothing),
    }
}

/// The chat room: while leaving is asked, `y` leaves and `n` stays; in
/// normal mode `i` starts typing and `q` asks to leave; in input mode keys
/// edit the line, Enter sends it and Esc drops it.
pub open spec fn chat_key(s: AppView, k: Key) -> (AppView, CommandView) {
    if s.exiting {
        match k {
            Key::Char(c) => if c == 'n' {
                (AppView { exiting: false, ..s }, CommandView::Nothing)
            } else if c == 'y' {
                (s, CommandView::Leave)
            } else {
                (s, CommandView::Nothing)
            },
            _ => (s, CommandView::Nothing),
        }
    } else {
        match s.chat_room_mode {
            ChatRoomMode::Normal => match k {
                Key::Char(c) => if c == 'i' {
                    (AppView { chat_room_mode: ChatRoomMode::Input, ..s }, CommandView::Nothing)
                } else if c == 'q' {
                    (AppView { exiting: true, ..s }, CommandView::Nothing)
                } else {
                    (s, CommandView::Nothing)
                },
                _ => (s, CommandView::Nothing),
            },
            ChatRoomMode::Input => match k {
                Key::Backspace => (AppView { input: pop_last(s.input), ..s }, CommandView::Nothing),
                Key::Char(c) => (AppView { input: s.input.push(c), ..s }, CommandView::Nothing),
                Key::Enter => (AppView { input: Seq::empty(), ..s }, CommandView::Send(s.input)),
                Key::Esc => (
                    AppView { input: Seq::empty(), chat_room_mode: ChatRoomMode::Normal, ..s },
                    CommandView::Nothing,
                ),
                _ => (s, CommandView::Nothing),
            },
        }
    }
}

/// The state and the command after a key, by screen.
pub open spec fn after_key(s: AppView, k: Key) -> (AppView, CommandView) {
    match s.current_screen {
        CurrentScreen::Entry => entry_key(s, k),
        CurrentScreen::Create => if s.password_prompt {
            prompt_key(s, k)
        } else {
            create_key(s, k)
        },
        CurrentScreen::CreatePassword => password_key(s, k),
        CurrentScreen::Join => join_key(s, k),
        CurrentScreen::RoomSelect => select_key(s, k),
        CurrentScreen::PasswordCheck => check_key(s, k),
        CurrentScreen::Chat => chat_key(s, k),
        CurrentScreen::Exiting => (s, CommandView::Nothing),
    }
}

/// The state after a room was created (`Some` id) or could not be.
pub open spec fn after_create(s: AppView, result: Option<Seq<char>>) -> AppView {
    match result {
        Some(id) => AppView { room_id: id, current_screen: CurrentScreen::Chat, ..s },
        None => AppView { create_room_error: Some(CreateRoomError::ServerError), ..s },
    }
}

/// The state after the directory was asked for from the join screen: the
/// rooms replace the list when they came; a non-empty list opens the room
/// list, an empty one is reported.
pub open spec fn after_room_list(s: AppView, result: Option<Seq<RoomDescriptorView>>) -> AppView {
    let t = match result {
        Some(l) => AppView { room_lst: l, ..s },
        None => AppView { join_room_error: Some(JoinRoomError::GetRoomListFailed), ..s },
    };
    if t.room_lst.len() != 0 {
        AppView { current_screen: CurrentScreen::RoomSelect, ..t }
    } else {
        AppView { join_room_error: Some(JoinRoomError::ZeroRooms), ..t }
    }
}

/// The state after the directory was reloaded from the room list: a
/// non-empty list replaces the old one; otherwise the list is emptied and
/// the join screen reports why.
pub open spec fn after_reload(s: AppView, result: Option<Seq<RoomDescriptorView>>) -> AppView {
    match result {
        Some(l) => if l.len() != 0 {
            AppView { room_lst: l, room_idx: 0, ..s }
        } else {
            AppView {
                room_lst: Seq::empty(),
                room_idx: 0,
                join_room_error: Some(JoinRoomError::ZeroRooms),
                current_screen: CurrentScreen::Join,
                ..s
            }
        },
        None => AppView {
            room_lst: Seq::empty(),
            room_idx: 0,
            join_room_error: Some(JoinRoomError::GetRoomListFailed),
            current_screen: CurrentScreen::Join,
            ..s
        },
    }
}

/// The state after a join attempt: success opens the chat; from the
/// password screen each refusal is reported as such and a connection failure
/// is not reported; from the room list any failure reads as a vanished room.
pub open spec fn after_join(s: AppView, result: Result<Seq<char>, JoinFailure>) -> AppView {
    match result {
        Ok(id) => AppView { room_id: id, current_screen: CurrentScreen::Chat, ..s },
        Err(f) => if s.current_screen == CurrentScreen::PasswordCheck {
            match f {
                JoinFailure::RoomNotFound => AppView {
                    join_room_error: Some(JoinRoomError::RoomNotFound),
                    ..s
                },
                JoinFailure::WrongPassword => AppView {
                    join_room_error: Some(JoinRoomError::WrongPassword),
                    ..s
                },
                JoinFailure::Connection => s,
            }
        } else {
            AppView { join_room_error: Some(JoinRoomError::RoomNotFound), ..s }
        },
    }
}

/// The rooms of an optional list.
pub open spec fn opt_rooms(o: Option<Vec<RoomDescriptor>>) -> Option<Seq<RoomDescriptorView>> {
    match o {
        Some(v) => Some(room_views(v@)),
        None => None,
    }
}

/// The text of a join outcome.
pub open spec fn join_view(r: Result<String, JoinFailure>) -> Result<Seq<char>, JoinFailure> {
    match r {
        Ok(s) => Ok(s@),
        Err(f) => Err(f),
    }
}

fn clear_string(s: &mut String)
    ensures
        final(s)@ == Seq::<char>::empty(),
{
    *s = String::new();
}

fn pop_last_char(s: &mut String)
    ensures
        final(s)@ == pop_last(old(s)@),
{
    let _ = pop_char(s);
}

impl App {
    fn entry_key(&mut self, key: Key) -> (r: Command)
        ensures
            (final(self)@, r@) == entry_key(old(self)@, key),
    {
        match key {
            Key::Tab => {
                self.current_selection =
                match self.current_selection {
                    CurrentSelection::Create => CurrentSelection::Join,
                    CurrentSelection::Join => CurrentSelection::Create,
                };
                Command::Nothing
            },
            Key::Enter => {
                self.current_screen =
                match self.current_selection {
                    CurrentSelection::Create => CurrentScreen::Create,
                    CurrentSelection::Join => CurrentScreen::Join,
                };
                Command::Nothing
            },
            Key::Char(c) => if c == 'q' {
                Command::Quit
            } else {
                Command::Nothing
            },
            _ => Command::Nothing,
        }
    }

    fn prompt_key(&mut self, key: Key) -> (r: Command)
        ensures
            (final(self)@, r@) == prompt_key(old(self)@, key),
    {
        match key {
            Key::Esc => {
                self.password_prompt = false;
                self.create_room_error = None;
                Command::Nothing
            },
            Key::Char(c) => if c == 'y' {
                self.current_screen = CurrentScreen::CreatePassword;
                self.create_room_error = None;
                Command::Nothing
            } else if c == 'n' {
                Command::CreateRoom {
                    username: self.username.clone(),
                    room_name: self.room_name.clone(),
                    password: None,
                }
            } else {
                Command::Nothing
            },
            _ => Command::Nothing,
        }
    }

    fn create_key(&mut self, key: Key) -> (r: Command)
        ensures
            (final(self)@, r@) == create_key(old(self)@, key),
    {
        match key {
            Key::Backspace => {
                match self.create_room_input {
                    CreateRoomInput::Username => pop_last_char(&mut self.username),
                    CreateRoomInput::RoomName => pop_last_char(&mut self.room_name),
                }
                self.create_room_error = None;
            },
            Key::Tab => {
                self.create_room_input =
                match self.create_room_input {
                    CreateRoomInput::Username => CreateRoomInput::RoomName,
                    CreateRoomInput::RoomName => CreateRoomInput::Username,
                };
            },
            Key::Enter => {
                match check_create_input(self.username.as_str(), self.room_name.as_str()) {
                    Err(e) => {
                        self.create_room_error = Some(e);
                    },
                    Ok(()) => {
                        self.password_prompt = true;
                    },
                }
            },
            Key::Char(c) => {
                match self.create_room_input {
                    CreateRoomInput::Username => push_char(&mut self.username, c),
                    CreateRoomInput::RoomName => push_char(&mut self.room_name, c),
                }
                self.create_room_error = None;
            },
            Key::Esc => {
                clear_string(&mut self.username);
                clear_string(&mut self.room_name);
                self.create_room_error = None;
                self.current_screen = CurrentScreen::Entry;
                self.create_room_input = CreateRoomInput::Username;
            },
            _ => {},
        }
        Command::Nothing
    }

    fn password_key(&mut self, key: Key) -> (r: Command)
        ensures
            (final(self)@, r@) == password_key(old(self)@, key),
    {
        match key {
            Key::Char(c) => {
                push_char(&mut self.password, c);
                self.create_room_error = None;
                Command::Nothing
            },
            Key::Backspace => {
                pop_last_char(&mut self.password);
                self.create_room_error = None;
                Command::Nothing
            },
            Key::Esc => {
                clear_string(&mut self.password);
                self.current_screen = CurrentScreen::Create;
                self.create_room_error = None;
                self.password_prompt = false;
                Command::Nothing
            },
            Key::Enter => {
                if check_password(self.password.as_str()).is_err() {
                    self.create_room_error = Some(CreateRoomError::InvalidPasswordChar);
                    Command::Nothing
                } else {
                    Command::CreateRoom {
                        username: self.username.clone(),
                        room_name: self.room_name.clone(),
                        password: Some(self.password.clone()),
                    }
                }
            },
            _ => Command::Nothing,
        }
    }

    fn join_key(&mut self, key: Key) -> (r: Command)
        ensures
            (final(self)@, r@) == join_key(old(self)@, key),
    {
        match key {
            Key::Backspace => {
                self.join_room_error = None;
                match self.join_room_input {
                    JoinRoomInput::Username => pop_last_char(&mut self.username),
                    JoinRoomInput::RoomId => pop_last_char(&mut self.room_id),
                }
                Command::Nothing
            },
            Key::Char(c) => {
                self.join_room_error = None;
                match self.join_room_input {
                    JoinRoomInput::Username => push_char(&mut self.username, c),
                    JoinRoomInput::RoomId => push_char(&mut self.room_id, c),
                }
                Command::Nothing
            },
            Key::Tab => {
                self.join_room_input =
                match self.join_room_input {
                    JoinRoomInput::Username => JoinRoomInput::RoomId,
                    JoinRoomInput::RoomId => JoinRoomInput::Username,
                };
                Command::Nothing
            },
            Key::Enter => match check_join_input(self.username.as_str(), self.room_id.as_str()) {
                Err(e) => {
                    self.join_room_error = Some(e);
                    Command::Nothing
                },
                Ok(()) => Command::ListRooms,
            },
            Key::Esc => {
                clear_string(&mut self.username);
                clear_string(&mut self.room_id);
                self.join_room_error = None;
                self.current_screen = CurrentScreen::Entry;
                Command::Nothing
            },
            _ => Command::Nothing,
        }
    }

    fn select_key(&mut self, key: Key) -> (r: Command)
        ensures
            (final(self)@, r@) == select_key(old(self)@, key),
    {
        match key {
            Key::Enter => {
                if self.room_idx < self.room_lst.len() {
                    let idx = self.room_idx;
                    assert(room_views(self.room_lst@)[idx as int] == self.room_lst@[idx as int]@);
                    if self.room_lst[idx].has_password {
                        self.current_screen = CurrentScreen::PasswordCheck;
                        Command::Nothing
                    } else {
                        Command::JoinRoom {
                            username: self.username.clone(),
                            room_id: self.room_lst[idx].room_id.clone(),
                            password: None,
                        }
                    }
                } else {
                    Command::Nothing
                }
            },
            Key::Esc => {
                self.current_screen = CurrentScreen::Join;
                Command::Nothing
            },
            Key::Char(c) => if c == 'r' {
                Command::ReloadRooms
            } else {
                Command::Nothing
            },
            Key::Up => {
                if self.room_idx > 0 {
                    self.room_idx = self.room_idx - 1;
                }
                Command::Nothing
            },
            Key::Down => {
                if self.room_lst.len() > 0 && self.room_idx < self.room_lst.len() - 1 {
                    self.room_idx = self.room_idx + 1;
                }
                Command::Nothing
            },
            _ => Command::Nothing,
        }
    }

    fn check_key(&mut self, key: Key) -> (r: Command)
        ensures
            (final(self)@, r@) == check_key(old(self)@, key),
    {
        match key {
            Key::Esc => {
                self.current_screen = CurrentScreen::RoomSelect;
                clear_string(&mut self.check_passwork);
                self.join_room_error = None;
                Command::Nothing
            },
            Key::Char(c) => {
                push_char(&mut self.check_passwork, c);
                self.join_room_error = None;
                Command::Nothing
            },
            Key::Backspace => {
                pop_last_char(&mut self.check_passwork);
                self.join_room_error = None;
                Command::Nothing
            },
            Key::Enter => {
                if self.room_idx < self.room_lst.len() {
                    let idx = self.room_idx;
                    assert(room_views(self.room_lst@)[idx as int] == self.room_lst@[idx as int]@);
                    Command::JoinRoom {
                        username: self.username.clone(),
                        room_id: self.room_lst[idx].room_id.clone(),
                        password: Some(self.check_passwork.clone()),
                    }
                } else {
                    Command::Nothing
                }
            },
            _ => Command::Nothing,
        }
    }

    fn chat_key(&mut self, key: Key) -> (r: Command)
        ensures
            (final(self)@, r@) == chat_key(old(self)@, key),
    {
        if self.exiting {
            match key {
                Key::Char(c) => if c == 'n' {
                    self.exiting = false;
                    Command::Nothing
                } else if c == 'y' {
                    Command::Leave
                } else {
                    Command::Nothing
                },
                _ => Command::Nothing,
            }
        } else {
            match self.chat_room_mode {
                ChatRoomMode::Normal => match key {
                    Key::Char(c) => if c == 'i' {
                        self.chat_room_mode = ChatRoomMode::Input;
                        Command::Nothing
                    } else if c == 'q' {
                        self.exiting = true;
                        Command::Nothing
                    } else {
                        Command::Nothing
                    },
                    _ => Command::Nothing,
                },
                ChatRoomMode::Input => match key {
                    Key::Backspace => {
                        pop_last_char(&mut self.input);
                        Command::Nothing
                    },
                    Key::Char(c) => {
                        push_char(&mut self.input, c);
                        Command::Nothing
                    },
                    Key::Enter => {
                        let line = self.input.clone();
                        clear_string(&mut self.input);
                        Command::Send(line)
                    },
                    Key::Esc => {
                        clear_string(&mut self.input);
                        self.chat_room_mode = ChatRoomMode::Normal;
                        Command::Nothing
                    },
                    _ => Command::Nothing,
                },
            }
        }
    }

    /// Updates the screens for a key and says what the program must do next.
    pub fn handle_key(&mut self, key: Key) -> (r: Command)
        ensures
            (final(self)@, r@) == after_key(old(self)@, key),
    {
        match self.current_screen {
            CurrentScreen::Entry => self.entry_key(key),
            CurrentScreen::Create => if self.password_prompt {
                self.prompt_key(key)
            } else {
                self.create_key(key)
            },
            CurrentScreen::CreatePassword => self.password_key(key),
            CurrentScreen::Join => self.join_key(key),
            CurrentScreen::RoomSelect => self.select_key(key),
            CurrentScreen::PasswordCheck => self.check_key(key),
            CurrentScreen::Chat => self.chat_key(key),
            CurrentScreen::Exiting => Command::Nothing,
        }
    }

    /// Takes the outcome of creating a room: its id, or `None` on failure.
    pub fn on_room_created(&mut self, result: Option<String>)
        ensures
            final(self)@ == after_create(old(self)@, opt_text(result)),
    {
        match result {
            Some(id) => self.enter_room(id),
            None => {
                self.create_room_error = Some(CreateRoomError::ServerError);
            },
        }
    }

    /// Takes the directory asked for from the join screen, or `None` where it
    /// could not be read.
    pub fn on_room_list(&mut self, result: Option<Vec<RoomDescriptor>>)
        ensures
            final(self)@ == after_room_list(old(self)@, opt_rooms(result)),
    {
        match result {
            Some(l) => {
                self.room_lst = l;
            },
            None => {
                self.join_room_error = Some(JoinRoomError::GetRoomListFailed);
            },
        }
        if self.room_lst.len() != 0 {
            self.current_screen = CurrentScreen::RoomSelect;
        } else {
            self.join_room_error = Some(JoinRoomError::ZeroRooms);
        }
    }

    /// Takes the directory reloaded from the room list, or `None` where it
    /// could not be read.
    pub fn on_rooms_reloaded(&mut self, result: Option<Vec<RoomDescriptor>>)
        ensures
            final(self)@ == after_reload(old(self)@, opt_rooms(result)),
    {
        match result {
            Some(l) => {
                if l.len() != 0 {
                    self.room_lst = l;
                    self.room_idx = 0;
                } else {
                    self.room_lst = Vec::new();
                    self.room_idx = 0;
                    self.join_room_error = Some(JoinRoomError::ZeroRooms);
                    self.current_screen = CurrentScreen::Join;
                    assert(room_views(self.room_lst@) =~= Seq::<RoomDescriptorView>::empty());
                }
            },
            None => {
                self.room_lst = Vec::new();
                self.room_idx = 0;
                self.join_room_error = Some(JoinRoomError::GetRoomListFailed);
                self.current_screen = CurrentScreen::Join;
                assert(room_views(self.room_lst@) =~= Seq::<RoomDescriptorView>::empty());
            },
        }
    }

    /// Takes the outcome of joining a room: its id, or why it failed.
    pub fn on_room_joined(&mut self, result: Result<String, JoinFailure>)
        ensures
            final(self)@ == after_join(old(self)@, join_view(result)),
    {
        match result {
            Ok(id) => self.enter_room(id),
            Err(f) => {
                if self.current_screen == CurrentScreen::PasswordCheck {
                    match f {
                        JoinFailure::RoomNotFound => {
                            self.join_room_error = Some(JoinRoomError::RoomNotFound);
                        },
                        JoinFailure::WrongPassword => {
                            self.join_room_error = Some(JoinRoomError::WrongPassword);
                        },
                        JoinFailure::Connection => {},
                    }
                } else {
                    self.join_room_error = Some(JoinRoomError::RoomNotFound);
                }
            },
        }
    }
}

} // verus!
