use vstd::prelude::*;
use vstd::utf8::encode_utf8;

use crate::app::{CreateRoomError, JoinRoomError};

verus! {

/// One or more of the characters that a user name may not hold.
pub const USERNAME_RESTRICT: &'static str =
    r#"([!@#$%\^\&\*\(\)\+=\[\]\{\}:;'"/<>|\\`~\?,\.\s]+)"#;

/// One or more of the characters that a room name may not hold.
pub const ROOM_NAME_RESTRICT: &'static str = r#"([@#$%\^\&\(\)\+=\[\]\{\}:;'"/|\\`~,\.]+)"#;

/// One or more white space characters.
pub const WHITESPACE_RUN: &'static str = r#"([\s]+)"#;

/// The longest user name, in bytes.
pub const MAX_USERNAME_LEN: usize = 50;

/// The longest room name, in bytes.
pub const MAX_ROOM_NAME_LEN: usize = 100;

/// The shortest password, in bytes.
pub const MIN_PASSWORD_LEN: usize = 4;

/// The longest password, in bytes.
pub const MAX_PASSWORD_LEN: usize = 20;

/// The length of a room id, in bytes.
pub const ROOM_ID_LEN: usize = 8;

/// Whether the regular expression `pattern` compiles and matches somewhere in
/// `hay`.
pub uninterp spec fn regex_finds(pattern: Seq<char>, hay: Seq<char>) -> bool;

/// Relies on `regex::Regex::new` and `regex::Regex::is_match`: whether the
/// pattern matches somewhere, which depends on the pattern and the haystack
/// alone.
#[verifier::external_body]
fn regex_is_match(pattern: &str, hay: &str) -> (r: bool)
    ensures
        r == regex_finds(pattern@, hay@),
{
    match regex::Regex::new(pattern) {
        Ok(re) => re.is_match(hay),
        Err(_) => false,
    }
}

/// Whether `s` holds none of the characters barred from user names.
pub fn is_valid_string(s: &str) -> (r: bool)
    ensures
        r == !regex_finds(USERNAME_RESTRICT@, s@),
{
    !regex_is_match(USERNAME_RESTRICT, s)
}

/// Whether `s` holds none of the characters barred from room names, which
/// may hold spaces.
pub fn is_valid_string_with_whitespace(s: &str) -> (r: bool)
    ensures
        r == !regex_finds(ROOM_NAME_RESTRICT@, s@),
{
    !regex_is_match(ROOM_NAME_RESTRICT, s)
}

/// Whether `s` holds white space.
pub fn has_whitespace(s: &str) -> (r: bool)
    ensures
        r == regex_finds(WHITESPACE_RUN@, s@),
{
    regex_is_match(WHITESPACE_RUN, s)
}

/// The error of a check, if it failed.
pub open spec fn error_of<E>(r: Result<(), E>) -> Option<E> {
    match r {
        Ok(_) => None,
        Err(e) => Some(e),
    }
}

/// The length of `s` in bytes.
pub open spec fn byte_len(s: Seq<char>) -> usize {
    encode_utf8(s).len() as usize
}

/// The first rule that a user name and a room name for a new room break, in
/// the order in which they are checked.
pub open spec fn create_input_error(username: Seq<char>, room_name: Seq<char>) -> Option<CreateRoomError> {
    if byte_len(username) < 1 || byte_len(username) > MAX_USERNAME_LEN {
        Some(CreateRoomError::InvalidUsernameLength)
    } else if byte_len(room_name) < 1 || byte_len(room_name) > MAX_ROOM_NAME_LEN {
        Some(CreateRoomError::InvalidRoomNameLength)
    } else if regex_finds(USERNAME_RESTRICT@, username) {
        Some(CreateRoomError::InvalidUsernameChar)
    } else if regex_finds(ROOM_NAME_RESTRICT@, room_name) {
        Some(CreateRoomError::InvalidRoomNameChar)
    } else {
        None
    }
}

/// Checks a user name and a room name for a new room.
pub fn check_create_input(username: &str, room_name: &str) -> (r: Result<(), CreateRoomError>)
    ensures
        error_of(r) == create_input_error(username@, room_name@),
{
    if username.len() < 1 || username.len() > MAX_USERNAME_LEN {
        return Err(CreateRoomError::InvalidUsernameLength);
    }
    if room_name.len() < 1 || room_name.len() > MAX_ROOM_NAME_LEN {
        return Err(CreateRoomError::InvalidRoomNameLength);
    }
    if !is_valid_string(username) {
        return Err(CreateRoomError::InvalidUsernameChar);
    }
    if !is_valid_string_with_whitespace(room_name) {
        return Err(CreateRoomError::InvalidRoomNameChar);
    }
    Ok(())
}

/// Whether a password for a new room breaks a rule: its length, or white
/// space in it.
pub open spec fn password_rejected(password: Seq<char>) -> bool {
    byte_len(password) < MIN_PASSWORD_LEN || byte_len(password) > MAX_PASSWORD_LEN
        || regex_finds(WHITESPACE_RUN@, password)
}

/// Checks the password for a new room.
pub fn check_password(password: &str) -> (r: Result<(), CreateRoomError>)
    ensures
        r is Err <==> password_rejected(password@),
        r matches Err(e) ==> e == CreateRoomError::InvalidPasswordChar,
{
    if password.len() < MIN_PASSWORD_LEN || password.len() > MAX_PASSWORD_LEN {
        return Err(CreateRoomError::InvalidPasswordChar);
    }
    if has_whitespace(password) {
        return Err(CreateRoomError::InvalidPasswordChar);
    }
    Ok(())
}

/// The first rule that a user name and a room id for joining break, in the
/// order in which they are checked.
pub open spec fn join_input_error(username: Seq<char>, room_id: Seq<char>) -> Option<JoinRoomError> {
    if byte_len(room_id) != ROOM_ID_LEN {
        Some(JoinRoomError::RoomIdLengthError)
    } else if byte_len(username) < 1 || byte_len(username) > MAX_USERNAME_LEN {
        Some(JoinRoomError::InvalidUsernameLength)
    } else if regex_finds(USERNAME_RESTRICT@, username) {
        Some(JoinRoomError::InvalidUsername)
    } else {
        None
    }
}

/// Checks a user name and a room id before joining.
pub fn check_join_input(username: &str, room_id: &str) -> (r: Result<(), JoinRoomError>)
    ensures
        error_of(r) == join_input_error(username@, room_id@),
{
    if room_id.len() != ROOM_ID_LEN {
        return Err(JoinRoomError::RoomIdLengthError);
    }
    if username.len() < 1 || username.len() > MAX_USERNAME_LEN {
        return Err(JoinRoomError::InvalidUsernameLength);
    }
    if !is_valid_string(username) {
        return Err(JoinRoomError::InvalidUsername);
    }
    Ok(())
}

} // verus!
