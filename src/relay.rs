use vstd::prelude::*;

use crate::classify::{classify_line, line_event, ChatEvent};
use crate::text::{decode_lossy, lossy_utf8, trim_end_of, trimmed_end};

verus! {

/// The capacity of the queue of lines that the user has written and the relay
/// has not sent yet.
pub const OUTBOUND_QUEUE_CAPACITY: usize = 10;

/// What the relay task of a session sees next: a chunk read from the
/// connection, a failed read, a line taken from the outbound queue, or the
/// queue found closed.
#[derive(Debug)]
pub enum RelayInput {
    Received(Vec<u8>),
    ReadFailed,
    Outgoing(String),
    QueueClosed,
}

/// What the relay task does about an input: record a chat line (first the
/// member list, then the history), write a line to the connection, mark the
/// session disconnected and stop, or nothing at all once stopped.
#[derive(Debug)]
pub enum RelayAction {
    Record { event: ChatEvent, line: String },
    Send(String),
    Disconnect,
    Idle,
}

/// Whether `r` is what an active relay does about `input`: an empty chunk, a
/// failed read and a closed queue end the session; a chunk is decoded,
/// classified and recorded without its trailing white space; an outgoing line
/// is written as it is.
pub open spec fn active_outcome(input: RelayInput, r: RelayAction) -> bool {
    match input {
        RelayInput::Received(b) => if b@.len() == 0 {
            r is Disconnect
        } else {
            match r {
                RelayAction::Record { event, line } => {
                    &&& event@ == line_event(lossy_utf8(b@))
                    &&& line@ == trim_end_of(lossy_utf8(b@))
                },
                _ => false,
            }
        },
        RelayInput::ReadFailed => r is Disconnect,
        RelayInput::Outgoing(s) => match r {
            RelayAction::Send(t) => t@ == s@,
            _ => false,
        },
        RelayInput::QueueClosed => r is Disconnect,
    }
}

/// The decisions of the relay task of one session: active until the
/// connection or the outbound queue ends, then stopped for good.
#[derive(Debug)]
pub struct RelayEngine {
    terminated: bool,
}

impl RelayEngine {
    /// Whether the relay has stopped.
    pub closed spec fn stopped(&self) -> bool {
        self.terminated
    }

    /// A relay for a session that has just been opened.
    pub fn new() -> (r: RelayEngine)
        ensures
            !r.stopped(),
    {
        RelayEngine { terminated: false }
    }

    /// Whether the relay has stopped.
    pub fn is_terminated(&self) -> (r: bool)
        ensures
            r == self.stopped(),
    {
        self.terminated
    }

    /// Decides what to do about the next input. Once the relay has answered
    /// `Disconnect` it stays stopped and answers `Idle` to everything.
    pub fn step(&mut self, input: RelayInput) -> (r: RelayAction)
        ensures
            old(self).stopped() ==> final(self).stopped() && r is Idle,
            !old(self).stopped() ==> active_outcome(input, r),
            !old(self).stopped() ==> (final(self).stopped() <==> r is Disconnect),
    {
        if self.terminated {
            return RelayAction::Idle;
        }
        match input {
            RelayInput::Received(b) => {
                if b.len() == 0 {
                    self.terminated = true;
                    RelayAction::Disconnect
                } else {
                    let text = decode_lossy(b.as_slice());
                    let event = classify_line(text.as_str());
                    let line = trimmed_end(text.as_str());
                    RelayAction::Record { event, line }
                }
            },
            RelayInput::ReadFailed => {
                self.terminated = true;
                RelayAction::Disconnect
            },
            RelayInput::Outgoing(s) => RelayAction::Send(s),
            RelayInput::QueueClosed => {
                self.terminated = true;
                RelayAction::Disconnect
            },
        }
    }
}

} // verus!
