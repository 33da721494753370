use vstd::prelude::*;

use crate::codec::{room_views, RoomDescriptor, RoomDescriptorView};
use crate::room_state::DEFAULT_RECORD_SIZE;

verus! {

/// The screen that the client shows.
#[derive(Debug, Clone, Copy, PartialEq, Eq, Structural)]
pub enum CurrentScreen {
    Entry,
    Create,
    CreatePassword,
    Join,
    RoomSelect,
    PasswordCheck,
    Chat,
    Exiting,
}

/// The choice highlighted on the entry screen.
#[derive(Debug, Clone, Copy, PartialEq, Eq, Structural)]
pub enum CurrentSelection {
    Create,
    Join,
}

/// The field being edited on the join screen.
#[derive(Debug, Clone, Copy, PartialEq, Eq, Structural)]
pub enum JoinRoomInput {
    Username,
    RoomId,
}

/// The field being edited on the create screen.
#[derive(Debug, Clone, Copy, PartialEq, Eq, Structural)]
pub enum CreateRoomInput {
    Username,
    RoomName,
}

/// Whether keys in the chat room edit a message or give commands.
#[derive(Debug, Clone, Copy, PartialEq, Eq, Structural)]
pub enum ChatRoomMode {
    Input,
    Normal,
}

/// Why a room could not be created.
#[derive(Debug, Clone, Copy, PartialEq, Eq, Structural)]
pub enum CreateRoomError {
    InvalidRoomNameChar,
    InvalidUsernameChar,
    InvalidUsernameLength,
    InvalidRoomNameLength,
    ServerError,
    InvalidPasswordChar,
}

/// Why a room could not be joined.
#[derive(Debug, Clone, Copy, PartialEq, Eq, Structural)]
pub enum JoinRoomError {
    InvalidUsername,
    InvalidUsernameLength,
    RoomIdLengthError,
    RoomNotFound,
    GetRoomListFailed,
    WrongPassword,
    ZeroRooms,
}

/// The state of the client's screens: what is typed, what is chosen, and
/// which errors are shown. The shared containers of a session are held
/// beside it by the program that drives the connection.
#[derive(Debug)]
pub struct App {
    pub input: String,
    pub record_size: u32,
    pub current_screen: CurrentScreen,
    pub exiting: bool,
    pub room_id: String,
    pub room_lst: Vec<RoomDescriptor>,
    pub room_idx: usize,
    pub username: String,
    pub current_selection: CurrentSelection,
    pub join_room_input: JoinRoomInput,
    pub chat_room_mode: ChatRoomMode,
    pub create_room_error: Option<CreateRoomError>,
    pub join_room_error: Option<JoinRoomError>,
    pub room_name: String,
    pub password: String,
    pub password_prompt: bool,
    pub create_room_input: CreateRoomInput,
    pub check_passwork: String,
}

/// What the screens hold, as plain values.
pub struct AppView {
    pub input: Seq<char>,
    pub record_size: u32,
    pub current_screen: CurrentScreen,
    pub exiting: bool,
    pub room_id: Seq<char>,
    pub room_lst: Seq<RoomDescriptorView>,
    pub room_idx: usize,
    pub username: Seq<char>,
    pub current_selection: CurrentSelection,
    pub join_room_input: JoinRoomInput,
    pub chat_room_mode: ChatRoomMode,
    pub create_room_error: Option<CreateRoomError>,
    pub join_room_error: Option<JoinRoomError>,
    pub room_name: Seq<char>,
    pub password: Seq<char>,
    pub password_prompt: bool,
    pub create_room_input: CreateRoomInput,
    pub check_passwork: Seq<char>,
}

impl View for App {
    type V = AppView;

    open spec fn view(&self) -> AppView {
        AppView {
            input: self.input@,
            record_size: self.record_size,
            current_screen: self.current_screen,
            exiting: self.exiting,
            room_id: self.room_id@,
            room_lst: room_views(self.room_lst@),
            room_idx: self.room_idx,
            username: self.username@,
            current_selection: self.current_selection,
            join_room_input: self.join_room_input,
            chat_room_mode: self.chat_room_mode,
            create_room_error: self.create_room_error,
            join_room_error: self.join_room_error,
            room_name: self.room_name@,
            password: self.password@,
            password_prompt: self.password_prompt,
            create_room_input: self.create_room_input,
            check_passwork: self.check_passwork@,
        }
    }
}

impl App {
    /// Whether the state is the one a fresh client starts in: on the entry
    /// screen, nothing typed, nothing chosen, no error shown.
    pub open spec fn is_initial(&self) -> bool {
        &&& self.input@.len() == 0
        &&& self.record_size == DEFAULT_RECORD_SIZE
        &&& self.current_screen == CurrentScreen::Entry
        &&& !self.exiting
        &&& self.room_id@.len() == 0
        &&& self.room_lst@.len() == 0
        &&& self.room_idx == 0
        &&& self.username@.len() == 0
        &&& self.current_selection == CurrentSelection::Create
        &&& self.join_room_input == JoinRoomInput::Username
        &&& self.chat_room_mode == ChatRoomMode::Normal
        &&& self.create_room_error.is_none()
        &&& self.join_room_error.is_none()
        &&& self.room_name@.len() == 0
        &&& self.password@.len() == 0
        &&& !self.password_prompt
        &&& self.create_room_input == CreateRoomInput::Username
        &&& self.check_passwork@.len() == 0
    }

    /// The state of a fresh client.
    pub fn new() -> (r: App)
        ensures
            r.is_initial(),
    {
        App {
            input: String::new(),
            record_size: DEFAULT_RECORD_SIZE,
            current_screen: CurrentScreen::Entry,
            exiting: false,
            room_id: String::new(),
            room_lst: Vec::new(),
            room_idx: 0,
            username: String::new(),
            current_selection: CurrentSelection::Create,
            join_room_input: JoinRoomInput::Username,
            chat_room_mode: ChatRoomMode::Normal,
            create_room_error: None,
            join_room_error: None,
            room_name: String::new(),
            password: String::new(),
            password_prompt: false,
            create_room_input: CreateRoomInput::Username,
            check_passwork: String::new(),
        }
    }

    /// Shows the chat screen of the room `room_id`.
    pub fn enter_room(&mut self, room_id: String)
        ensures
            final(self)@ == (AppView {
                room_id: room_id@,
                current_screen: CurrentScreen::Chat,
                ..old(self)@
            }),
    {
        self.room_id = room_id;
        self.current_screen = CurrentScreen::Chat;
    }

    /// Returns to the state of a fresh client, as after a disconnection.
    pub fn reinitialize(&mut self)
        ensures
            final(self).is_initial(),
    {
        *self = App::new();
    }
}

} // verus!
