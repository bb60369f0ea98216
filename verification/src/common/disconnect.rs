//! What a session reports when it ends, and what the task states need of a
//! disconnect reason.
use vstd::prelude::*;

verus! {

/// The reason a networking session ended, as reported to the session layer:
/// closed by us, closed by the peer, or ended by an error, each with a message.
#[derive(Debug)]
pub enum SessionDisconnect {
    ByUser(String),
    ByPeer(String),
    ByError(String),
}

/// The mathematical form of a [`SessionDisconnect`].
pub enum SessionDisconnectView {
    ByUser(Seq<char>),
    ByPeer(Seq<char>),
    ByError(Seq<char>),
}

impl View for SessionDisconnect {
    type V = SessionDisconnectView;

    open spec fn view(&self) -> SessionDisconnectView {
        match self {
            SessionDisconnect::ByUser(m) => SessionDisconnectView::ByUser(m@),
            SessionDisconnect::ByPeer(m) => SessionDisconnectView::ByPeer(m@),
            SessionDisconnect::ByError(m) => SessionDisconnectView::ByError(m@),
        }
    }
}

/// A reason for a task to end, as kept by the task states: it can be copied
/// exactly, and it can stand for an internal error with a description.
pub trait DisconnectCause: Sized {
    /// Whether this reason stands for an internal error with the given description.
    spec fn spec_is_internal_error(&self, description: Seq<char>) -> bool;

    /// The reason that stands for an internal error with the given description.
    fn from_internal_error(description: String) -> (r: Self)
        ensures
            r.spec_is_internal_error(description@),
    ;

    /// An exact copy of the reason.
    fn duplicate(&self) -> (r: Self)
        ensures
            r == *self,
    ;
}

} // verus!
