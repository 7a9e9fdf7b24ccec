//! The errors of the daemon and of the message envelope.

use vstd::prelude::*;
use crate::text::join2;

verus! {

/// What can be wrong with the shape of a message.
#[derive(Debug, PartialEq, Eq)]
pub enum RpcError {
    /// A value is not of the type that its place in the message asks for.
    TypeError,
    /// The message has the wrong number of items; the text says how many
    /// were expected and how many were found.
    InvalidArrayLength(String),
    /// The first item is not the code of the expected kind of message.
    InvalidMessageType,
    /// The message identifier is not an unsigned 32-bit integer.
    InvalidId,
    /// The method, notice or error code is not an integer, or names nothing.
    InvalidCode,
}

/// The mathematical model of an [`RpcError`].
pub enum RpcErrorView {
    TypeError,
    InvalidArrayLength(Seq<char>),
    InvalidMessageType,
    InvalidId,
    InvalidCode,
}

impl View for RpcError {
    type V = RpcErrorView;

    open spec fn view(&self) -> RpcErrorView {
        match self {
            RpcError::TypeError => RpcErrorView::TypeError,
            RpcError::InvalidArrayLength(m) => RpcErrorView::InvalidArrayLength(m@),
            RpcError::InvalidMessageType => RpcErrorView::InvalidMessageType,
            RpcError::InvalidId => RpcErrorView::InvalidId,
            RpcError::InvalidCode => RpcErrorView::InvalidCode,
        }
    }
}

/// The errors that the daemon reports.
#[derive(Debug, PartialEq, Eq)]
pub enum SasdError {
    /// A well-formed message that the current state does not allow.
    UnexpectedMessage,
    /// A message with a malformed code, a wrong number of arguments or an
    /// argument of the wrong type.
    InvalidMessage,
    /// A state value of one variant was given where another was expected:
    /// the expected variant, then the one that was given.
    InvalidStateValue(String, String),
    /// A setting failed validation; the text says which and why.
    SettingsError(String),
    /// An error of the message envelope, handed on as it came.
    Net(RpcError),
    /// A resource that the daemon needs could not be had.
    InternalError,
    /// An error that is known by its text alone.
    Msg(String),
}

/// The mathematical model of a [`SasdError`].
pub enum SasdErrorView {
    UnexpectedMessage,
    InvalidMessage,
    InvalidStateValue(Seq<char>, Seq<char>),
    SettingsError(Seq<char>),
    Net(RpcErrorView),
    InternalError,
    Msg(Seq<char>),
}

impl View for SasdError {
    type V = SasdErrorView;

    open spec fn view(&self) -> SasdErrorView {
        match self {
            SasdError::UnexpectedMessage => SasdErrorView::UnexpectedMessage,
            SasdError::InvalidMessage => SasdErrorView::InvalidMessage,
            SasdError::InvalidStateValue(e, g) => SasdErrorView::InvalidStateValue(e@, g@),
            SasdError::SettingsError(m) => SasdErrorView::SettingsError(m@),
            SasdError::Net(e) => SasdErrorView::Net(e@),
            SasdError::InternalError => SasdErrorView::InternalError,
            SasdError::Msg(m) => SasdErrorView::Msg(m@),
        }
    }
}

/// The result of an operation of the daemon.
pub type SasdResult<T> = Result<T, SasdError>;

/// The text that describes an error.
pub open spec fn error_text(e: SasdErrorView) -> Seq<char> {
    match e {
        SasdErrorView::UnexpectedMessage => "Unexpected message"@,
        SasdErrorView::InvalidMessage => "Invalid message"@,
        SasdErrorView::InvalidStateValue(expected, given) => "Invalid StateValue: expected "@
            + expected + ", got "@ + given + " instead"@,
        SasdErrorView::SettingsError(m) => "Settings validation error: "@ + m,
        SasdErrorView::Net(_) => "Malformed message envelope"@,
        SasdErrorView::InternalError => "Internal error"@,
        SasdErrorView::Msg(m) => m,
    }
}

impl SasdError {
    /// The text that describes the error.
    pub fn message(&self) -> (s: String)
        ensures
            s@ == error_text(self@),
    {
        match self {
            SasdError::UnexpectedMessage => String::from_str("Unexpected message"),
            SasdError::InvalidMessage => String::from_str("Invalid message"),
            SasdError::InvalidStateValue(expected, given) => {
                let s = join2("Invalid StateValue: expected ", expected.as_str());
                let s = s.concat(", got ");
                let s = s.concat(given.as_str());
                s.concat(" instead")
            },
            SasdError::SettingsError(m) => join2("Settings validation error: ", m.as_str()),
            SasdError::Net(_) => String::from_str("Malformed message envelope"),
            SasdError::InternalError => String::from_str("Internal error"),
            SasdError::Msg(m) => m.clone(),
        }
    }
}

} // verus!
