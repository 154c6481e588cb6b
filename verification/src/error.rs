//! Error types of the client.

use vstd::prelude::*;
use vstd::string::StringExecFns;

verus! {

/// An error that the chat engine itself raises.
#[derive(Debug, Clone, PartialEq, Eq)]
pub enum ChatError {
    Error(String),
}

/// What can go wrong between the client and the chat engine.
#[derive(Debug, Clone, PartialEq, Eq)]
pub enum TransportError {
    /// The peer or the local end terminated the connection.
    ConnectionClosed,
    /// The connect phase exceeded its budget.
    Timeout,
    /// A read or write on the transport failed, other than by a clean close.
    WebSocket(String),
    /// An envelope did not parse or could not be written.
    InvalidFormat(String),
    /// A frame of a kind the client does not handle.
    GenericError,
}

/// The text of a [`ChatError`]: its message behind a fixed prefix.
pub open spec fn chat_error_text(e: ChatError) -> Seq<char> {
    match e {
        ChatError::Error(msg) => "ChatError: "@ + msg@,
    }
}

impl ChatError {
    /// Renders the error for a human reader.
    pub fn message(&self) -> (text: String)
        ensures
            text@ == chat_error_text(*self),
    {
        match self {
            ChatError::Error(msg) => String::from_str("ChatError: ").concat(msg.as_str()),
        }
    }
}

impl TransportError {
    /// Whether the reader may go on after this error: a frame that did not
    /// parse, or one of a kind the client does not handle, is dropped and the
    /// connection stays up; everything else ends the connection.
    pub open spec fn spec_is_recoverable(&self) -> bool {
        self is InvalidFormat || self is GenericError
    }

    #[verifier::when_used_as_spec(spec_is_recoverable)]
    pub fn is_recoverable(&self) -> (b: bool)
        ensures
            b == self.spec_is_recoverable(),
    {
        match self {
            TransportError::InvalidFormat(_) => true,
            TransportError::GenericError => true,
            _ => false,
        }
    }
}

} // verus!
