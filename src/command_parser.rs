use vstd::prelude::*;

verus! {

/// The command line: one operation.
#[derive(Debug, Clone, PartialEq, Eq)]
pub struct Args {
    pub operation: Operation,
}

/// What the command line asks for: create a room, or join the room with the
/// given id.
#[derive(Debug, Clone, PartialEq, Eq)]
pub enum Operation {
    Create { username: String },
    Join { username: String, room_id: String },
}

} // verus!
