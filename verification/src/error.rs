//! What an operation of a session fails with.

use crate::message::{description, DecodeError, Message, MessageView};
use vstd::prelude::*;
use vstd::string::StringExecFns;

verus! {

/// Why an operation of a session failed.
///
/// Only `Disconnected` comes with a change of the session: it has lost its
/// peer. After every other error the session is as it was before the
/// operation, and the caller may try again. The same holds where the
/// transport fails, which the driver reports and the session never sees.
#[derive(Debug, PartialEq, Eq)]
pub enum Error {
    /// The operation needs a peer and the session has none.
    NotConnected,
    /// A datagram was no message.
    Decode(DecodeError),
    /// The address to connect to is the session's own.
    SelfConnect,
    /// The other side answered the connection request with `Unexpected`.
    HandshakeRejected,
    /// The message that arrived is not one that the operation can take.
    UnexpectedMessage(Message),
    /// One of the two sides has ended the session.
    Disconnected,
}

/// An error as a mathematical value.
pub ghost enum ErrorView {
    NotConnected,
    Decode(DecodeError),
    SelfConnect,
    HandshakeRejected,
    UnexpectedMessage(MessageView),
    Disconnected,
}

impl View for Error {
    type V = ErrorView;

    open spec fn view(&self) -> ErrorView {
        match self {
            Error::NotConnected => ErrorView::NotConnected,
            Error::Decode(error) => ErrorView::Decode(*error),
            Error::SelfConnect => ErrorView::SelfConnect,
            Error::HandshakeRejected => ErrorView::HandshakeRejected,
            Error::UnexpectedMessage(message) => ErrorView::UnexpectedMessage(message@),
            Error::Disconnected => ErrorView::Disconnected,
        }
    }
}

impl Clone for Error {
    fn clone(&self) -> (copy: Error)
        ensures
            copy@ == self@,
    {
        match self {
            Error::NotConnected => Error::NotConnected,
            Error::Decode(error) => Error::Decode(*error),
            Error::SelfConnect => Error::SelfConnect,
            Error::HandshakeRejected => Error::HandshakeRejected,
            Error::UnexpectedMessage(message) => Error::UnexpectedMessage(message.clone()),
            Error::Disconnected => Error::Disconnected,
        }
    }
}

/// A result of the session as a mathematical value.
pub open spec fn result_view<T: View>(result: Result<T, Error>) -> Result<T::V, ErrorView> {
    match result {
        Ok(value) => Ok(value@),
        Err(error) => Err(error@),
    }
}

/// A result that holds no data of its own kind but plain values, as a
/// mathematical value.
pub open spec fn plain_result_view<T>(result: Result<T, Error>) -> Result<T, ErrorView> {
    match result {
        Ok(value) => Ok(value),
        Err(error) => Err(error@),
    }
}

/// The words that say what `error` is.
pub open spec fn decode_error_text(error: DecodeError) -> Seq<char> {
    match error {
        DecodeError::UnknownMessageType => "unknown message type"@,
        DecodeError::UnknownControlMessage => "unknown control message"@,
    }
}

/// The words that say what `error` is.
pub open spec fn error_text(error: ErrorView) -> Seq<char> {
    match error {
        ErrorView::NotConnected => "not connected"@,
        ErrorView::Decode(error) => decode_error_text(error),
        ErrorView::SelfConnect => "cannot connect to self"@,
        ErrorView::HandshakeRejected => "peer is not accepting connections"@,
        ErrorView::UnexpectedMessage(message) => "unexpected message: "@ + description(message),
        ErrorView::Disconnected => "disconnected"@,
    }
}

impl DecodeError {
    /// The words that say what the error is.
    pub fn describe(&self) -> (text: String)
        ensures
            text@ == decode_error_text(*self),
    {
        match self {
            DecodeError::UnknownMessageType => "unknown message type".to_owned(),
            DecodeError::UnknownControlMessage => "unknown control message".to_owned(),
        }
    }
}

impl Error {
    /// The words that say what the error is.
    pub fn describe(&self) -> (text: String)
        ensures
            text@ == error_text(self@),
    {
        match self {
            Error::NotConnected => "not connected".to_owned(),
            Error::Decode(error) => error.describe(),
            Error::SelfConnect => "cannot connect to self".to_owned(),
            Error::HandshakeRejected => "peer is not accepting connections".to_owned(),
            Error::UnexpectedMessage(message) => {
                let shown: String = message.describe();
                "unexpected message: ".to_owned().concat(shown.as_str())
            },
            Error::Disconnected => "disconnected".to_owned(),
        }
    }
}

} // verus!
