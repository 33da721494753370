//! A terminal chat client's core: the wire codec of a line-based chat
//! protocol, the classifier of chat events, the bounded history and member
//! list of a room, the decisions of the relay task that serves a connection,
//! and the screens' state machine with its input rules.
use vstd::prelude::*;

pub mod app;
pub mod classify;
pub mod codec;
pub mod command_parser;
pub mod layout;
pub mod navigation;
pub mod relay;
pub mod room_state;
pub mod text;
pub mod util;
pub mod validate;
