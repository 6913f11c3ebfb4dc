//! The ways in which a frame or a session can fail.

use crate::text::{decimal, decimal_text};
use vstd::prelude::*;

verus! {

/// What can go wrong in the dispatch of a frame.
#[derive(Clone, Copy, Debug, PartialEq, Eq, Structural)]
pub enum DispatchError {
    /// The counter that the frame would raise stands at its largest value,
    /// so that the frame was routed but not counted.
    CounterFull,
}

/// Why a session ended, other than by being cancelled.
#[derive(Debug, PartialEq, Eq)]
pub enum SessionError {
    /// The transport could not be opened in time; with the transport's words.
    Connect(String),
    /// The radio did not acknowledge the configuration; with the transport's
    /// words.
    Configure(String),
    /// Nothing came from the radio for this many seconds.
    IdleTimeout(u64),
    /// The dispatch of a frame met a fault.
    Dispatch(DispatchError),
}

/// The mathematical value of a [`SessionError`].
pub enum SessionErrorView {
    Connect(Seq<char>),
    Configure(Seq<char>),
    IdleTimeout(u64),
    Dispatch(DispatchError),
}

impl View for SessionError {
    type V = SessionErrorView;

    open spec fn view(&self) -> SessionErrorView {
        match *self {
            SessionError::Connect(reason) => SessionErrorView::Connect(reason@),
            SessionError::Configure(reason) => SessionErrorView::Configure(reason@),
            SessionError::IdleTimeout(limit) => SessionErrorView::IdleTimeout(limit),
            SessionError::Dispatch(error) => SessionErrorView::Dispatch(error),
        }
    }
}

/// The view of an optional [`SessionError`].
pub open spec fn failure_view(failure: Option<SessionError>) -> Option<SessionErrorView> {
    match failure {
        Some(error) => Some(error@),
        None => None,
    }
}

impl SessionErrorView {
    /// The error in words.
    pub open spec fn message(self) -> Seq<char> {
        match self {
            SessionErrorView::Connect(reason) => reason,
            SessionErrorView::Configure(reason) => reason,
            SessionErrorView::IdleTimeout(limit) => "Idle for more than "@ + decimal(limit as nat)
                + "s, I'm going to reset"@,
            SessionErrorView::Dispatch(DispatchError::CounterFull) => "A usage counter is full"@,
        }
    }

    /// The text that tells the notification channel of the error.
    pub open spec fn notice(self) -> Seq<char> {
        "⚠️ Error running service: "@ + self.message()
    }
}

impl SessionError {
    /// The error in words.
    pub fn message(&self) -> (r: String)
        ensures
            r@ == self@.message(),
    {
        match self {
            SessionError::Connect(reason) => reason.clone(),
            SessionError::Configure(reason) => reason.clone(),
            SessionError::IdleTimeout(limit) => {
                let mut text = String::from_str("Idle for more than ");
                let number = decimal_text(*limit);
                text.append(number.as_str());
                text.append("s, I'm going to reset");
                text
            },
            SessionError::Dispatch(DispatchError::CounterFull) => String::from_str(
                "A usage counter is full",
            ),
        }
    }

    /// The text that tells the notification channel of the error.
    pub fn notice(&self) -> (r: String)
        ensures
            r@ == self@.notice(),
    {
        let mut text = String::from_str("⚠️ Error running service: ");
        let message = self.message();
        text.append(message.as_str());
        text
    }
}

impl Clone for SessionError {
    fn clone(&self) -> (r: Self)
        ensures
            r@ == self@,
    {
        match self {
            SessionError::Connect(reason) => SessionError::Connect(reason.clone()),
            SessionError::Configure(reason) => SessionError::Configure(reason.clone()),
            SessionError::IdleTimeout(limit) => SessionError::IdleTimeout(*limit),
            SessionError::Dispatch(error) => SessionError::Dispatch(*error),
        }
    }
}

} // verus!
