//! What a session tells the user interface.
use vstd::prelude::*;
use vstd::string::StringExecFns;

verus! {

/// A message for the user interface, scoped to one session.
#[derive(Debug, PartialEq, Eq)]
pub enum Notification {
    /// Output that the session's process produced, as text.
    Data { session: String, text: String },
    /// The session's process has ended, or its stream was closed or failed.
    Exit { session: String },
}

/// A notification as plain values.
pub enum NotificationView {
    Data { session: Seq<char>, text: Seq<char> },
    Exit { session: Seq<char> },
}

impl NotificationView {
    /// The session that the notification belongs to.
    pub open spec fn session(self) -> Seq<char> {
        match self {
            NotificationView::Data { session, .. } => session,
            NotificationView::Exit { session } => session,
        }
    }

    /// The text that the notification carries; an exit carries none.
    pub open spec fn payload(self) -> Option<Seq<char>> {
        match self {
            NotificationView::Data { text, .. } => Some(text),
            NotificationView::Exit { .. } => None,
        }
    }

    /// The name under which the notification is emitted: `pty-data-` or
    /// `pty-exit-`, followed by the session's identifier.
    pub open spec fn event_name(self) -> Seq<char> {
        match self {
            NotificationView::Data { session, .. } => "pty-data-"@ + session,
            NotificationView::Exit { session } => "pty-exit-"@ + session,
        }
    }
}

impl View for Notification {
    type V = NotificationView;

    open spec fn view(&self) -> NotificationView {
        match self {
            Notification::Data { session, text } => NotificationView::Data {
                session: session@,
                text: text@,
            },
            Notification::Exit { session } => NotificationView::Exit { session: session@ },
        }
    }
}

impl Notification {
    /// The session that the notification belongs to.
    pub fn session(&self) -> (session: &str)
        ensures
            session@ == self@.session(),
    {
        match self {
            Notification::Data { session, .. } => session.as_str(),
            Notification::Exit { session } => session.as_str(),
        }
    }

    /// The text to send along; `None` for an exit, which has no payload.
    pub fn payload(&self) -> (payload: Option<&str>)
        ensures
            payload.deep_view() == self@.payload(),
    {
        match self {
            Notification::Data { text, .. } => Some(text.as_str()),
            Notification::Exit { .. } => None,
        }
    }

    /// Whether this is the exit of the session.
    pub fn is_exit(&self) -> (exit: bool)
        ensures
            exit == (self@ is Exit),
    {
        match self {
            Notification::Data { .. } => false,
            Notification::Exit { .. } => true,
        }
    }

    /// The name to emit the notification under.
    pub fn event_name(&self) -> (name: String)
        ensures
            name@ == self@.event_name(),
    {
        match self {
            Notification::Data { session, .. } => String::from_str("pty-data-").concat(
                session.as_str(),
            ),
            Notification::Exit { session } => String::from_str("pty-exit-").concat(
                session.as_str(),
            ),
        }
    }
}

} // verus!
