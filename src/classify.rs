use vstd::prelude::*;
use vstd::string::*;

verus! {

/// A chat line that announces a departure: the user name, then
/// ` has left the chat room`.
pub const LEAVE_PATTERN: &'static str =
    r#"^([^!@#$%\^\&\*\(\)\+=\[\]\{\}:;'"/<>|\\`~\?,\.\s]+) has left the chat room"#;

/// A chat line that announces an arrival: the user name, then
/// ` has joined the chat room`.
pub const JOIN_PATTERN: &'static str =
    r#"^([^!@#$%\^\&\*\(\)\+=\[\]\{\}:;'"/<>|\\`~\?,\.\s]+) has joined the chat room"#;

/// A chat line written by a user: the user name, then `:`.
pub const SENDER_PATTERN: &'static str =
    r#"^([^!@#$%\^\&\*\(\)\+=\[\]\{\}:;'"/<>|\\`~\?,\.\s]+):"#;

/// The text that capture group `group` of the first match of the regular
/// expression `pattern` in `hay` covers; `None` where the pattern does not
/// compile, does not match, or the group took no part in the match.
pub uninterp spec fn regex_group(pattern: Seq<char>, hay: Seq<char>, group: nat) -> Option<
    Seq<char>,
>;

/// Relies on `regex::Regex::new` and `regex::Regex::captures`: the text of
/// one capture group of the first match, which depends on the pattern, the
/// haystack and the group number alone.
#[verifier::external_body]
fn capture_group(pattern: &str, hay: &str, group: usize) -> (r: Option<String>)
    ensures
        opt_text(r) == regex_group(pattern@, hay@, group as nat),
{
    let re = regex::Regex::new(pattern).ok()?;
    let caps = re.captures(hay)?;
    caps.get(group).map(|m| m.as_str().to_string())
}

/// The text of an optional string.
pub open spec fn opt_text(o: Option<String>) -> Option<Seq<char>> {
    match o {
        Some(s) => Some(s@),
        None => None,
    }
}

/// What a chat line means for the member list.
#[derive(Debug, Clone, PartialEq, Eq)]
pub enum ChatEvent {
    Joined(String),
    Left(String),
    Plain,
}

pub enum ChatEventView {
    Joined(Seq<char>),
    Left(Seq<char>),
    Plain,
}

impl View for ChatEvent {
    type V = ChatEventView;

    open spec fn view(&self) -> ChatEventView {
        match self {
            ChatEvent::Joined(u) => ChatEventView::Joined(u@),
            ChatEvent::Left(u) => ChatEventView::Left(u@),
            ChatEvent::Plain => ChatEventView::Plain,
        }
    }
}

/// The event that the two pattern matches give: a departure wins over an
/// arrival, and a line that matches neither is a plain message.
pub open spec fn event_from(left: Option<Seq<char>>, joined: Option<Seq<char>>) -> ChatEventView {
    match left {
        Some(u) => ChatEventView::Left(u),
        None => match joined {
            Some(u) => ChatEventView::Joined(u),
            None => ChatEventView::Plain,
        },
    }
}

/// The event that a chat line announces.
pub open spec fn line_event(line: Seq<char>) -> ChatEventView {
    event_from(regex_group(LEAVE_PATTERN@, line, 1), regex_group(JOIN_PATTERN@, line, 1))
}

/// The user that a departure line names.
fn match_regex_left(hay: &str) -> (r: Option<String>)
    ensures
        opt_text(r) == regex_group(LEAVE_PATTERN@, hay@, 1),
{
    capture_group(LEAVE_PATTERN, hay, 1)
}

/// The user that an arrival line names.
fn match_regex_join(hay: &str) -> (r: Option<String>)
    ensures
        opt_text(r) == regex_group(JOIN_PATTERN@, hay@, 1),
{
    capture_group(JOIN_PATTERN, hay, 1)
}

/// Builds the event from what the departure and arrival patterns captured.
pub fn event_from_captures(left: Option<String>, joined: Option<String>) -> (r: ChatEvent)
    ensures
        r@ == event_from(opt_text(left), opt_text(joined)),
{
    match left {
        Some(u) => ChatEvent::Left(u),
        None => match joined {
            Some(u) => ChatEvent::Joined(u),
            None => ChatEvent::Plain,
        },
    }
}

/// Classifies a chat line as an arrival, a departure or a plain message.
pub fn classify_line(line: &str) -> (r: ChatEvent)
    ensures
        r@ == line_event(line@),
{
    let left = match_regex_left(line);
    let joined = match_regex_join(line);
    event_from_captures(left, joined)
}

/// The user that wrote a chat line, where it starts with a user name and `:`.
pub fn extract_username(hay: &str) -> (r: Option<String>)
    ensures
        opt_text(r) == regex_group(SENDER_PATTERN@, hay@, 1),
{
    capture_group(SENDER_PATTERN, hay, 1)
}

/// Who wrote a chat line, as seen by the user of this client.
#[derive(Debug, Clone, Copy, PartialEq, Eq, Structural)]
pub enum MessageKind {
    Own,
    Other,
    System,
}

/// Who wrote `line`, for the user `username`: the user, someone else, or no
/// one (a line without a sender).
pub open spec fn kind_of(line: Seq<char>, username: Seq<char>) -> MessageKind {
    match regex_group(SENDER_PATTERN@, line, 1) {
        Some(name) => if name == username {
            MessageKind::Own
        } else {
            MessageKind::Other
        },
        None => MessageKind::System,
    }
}

/// Tells the user's own chat lines from those of others and from lines
/// without a sender.
pub fn message_kind(line: &str, username: &str) -> (r: MessageKind)
    ensures
        r == kind_of(line@, username@),
{
    match extract_username(line) {
        Some(name) => {
            let me = String::from_str(username);
            if name == me {
                MessageKind::Own
            } else {
                MessageKind::Other
            }
        },
        None => MessageKind::System,
    }
}

} // verus!
