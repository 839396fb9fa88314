//! Saved sessions, and what a running session is told and tells.

use vstd::prelude::*;

verus! {

/// The protocol of a session.
#[derive(Debug, Clone, Copy, PartialEq, Eq, Structural)]
pub enum SessionKind {
    Ssh,
    Telnet,
    Rdp,
}

/// A text that is not to be shown.
pub struct Secret {
    value: String,
}

impl View for Secret {
    type V = Seq<char>;

    closed spec fn view(&self) -> Seq<char> {
        self.value@
    }
}

impl Secret {
    /// The text, kept secret.
    pub fn new(value: &str) -> (r: Secret)
        ensures
            r@ == value@,
    {
        Secret { value: value.to_owned() }
    }
}

/// A saved session.
pub struct Session {
    pub kind: SessionKind,
    pub host: String,
    /// The port, or zero for the usual port of the protocol.
    pub port: u16,
    pub user: String,
    pub password: Secret,
}

impl Session {
    /// A session with nothing filled in.
    pub fn new_empty() -> (r: Session)
        ensures
            r.kind == SessionKind::Ssh,
            r.host@.len() == 0,
            r.port == 0,
            r.user@.len() == 0,
            r.password@.len() == 0,
    {
        Session {
            kind: SessionKind::Ssh,
            host: String::new(),
            port: 0,
            user: String::new(),
            password: Secret { value: String::new() },
        }
    }
}

/// What a running session is told.
#[derive(Debug)]
pub enum SessionCommand {
    /// The user typed this.
    RawInput(Vec<u8>),
    /// The terminal has this many columns and rows.
    Resize(u32, u32),
    /// The tab is closed.
    Close,
}

/// What a running session tells.
#[derive(Debug)]
pub enum SessionEvent {
    Status(String),
    Connected,
    Output(String),
    /// The session is over, for this reason.
    Closed(String),
}

/// The contents of a [`SessionEvent`].
pub enum SessionEventView {
    Status(Seq<char>),
    Connected,
    Output(Seq<char>),
    Closed(Seq<char>),
}

impl View for SessionEvent {
    type V = SessionEventView;

    open spec fn view(&self) -> SessionEventView {
        match self {
            SessionEvent::Status(s) => SessionEventView::Status(s@),
            SessionEvent::Connected => SessionEventView::Connected,
            SessionEvent::Output(s) => SessionEventView::Output(s@),
            SessionEvent::Closed(s) => SessionEventView::Closed(s@),
        }
    }
}

} // verus!
