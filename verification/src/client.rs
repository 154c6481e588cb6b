//! The client facade: what application code calls to shape a command, and
//! how one inbound frame is read.
//!
//! The facade owns the counter that numbers the commands. It hands out
//! envelopes; carrying them to the writer and waiting for the reply is the
//! caller's business.

use crate::commands::{frame_text_command, text_command_text, CommandPayload};
use crate::decimal::{decimal, to_decimal};
use crate::error::TransportError;
use crate::json::{json_string, quote};
use crate::response::{ChatInfoType, ServerResponse};
use vstd::prelude::*;

verus! {

/// What the reader got from the transport, as plain values.
#[derive(Debug, Clone, PartialEq, Eq)]
pub enum Inbound {
    /// A text frame that parsed into an envelope.
    Envelope(ServerResponse),
    /// A text frame that did not parse, with the parser's message.
    Malformed(String),
    /// The peer's close frame.
    Close,
    /// A frame of another kind: binary, ping, pong.
    Other,
    /// A failed read, with the transport's message.
    Failed(String),
    /// The end of the stream.
    End,
}

/// What one read amounts to.
pub type StreamMessage = Result<ServerResponse, TransportError>;

/// The envelope in a frame, or the error that the frame stands for.
pub open spec fn inbound_meaning(msg: Inbound) -> StreamMessage {
    match msg {
        Inbound::Envelope(response) => Ok(response),
        Inbound::Malformed(reason) => Err(TransportError::InvalidFormat(reason)),
        Inbound::Close => Err(TransportError::ConnectionClosed),
        Inbound::Other => Err(TransportError::GenericError),
        Inbound::Failed(reason) => Err(TransportError::WebSocket(reason)),
        Inbound::End => Err(TransportError::ConnectionClosed),
    }
}

/// The id that follows `id` on the counter, which wraps.
pub open spec fn next_corr_id(id: u16) -> u16 {
    if id == u16::MAX {
        0
    } else {
        (id + 1) as u16
    }
}

/// The facade of the client.
pub struct ChatClient {
    url: String,
    corr_id: u16,
}

impl ChatClient {
    /// The endpoint that the client talks to.
    pub closed spec fn endpoint(&self) -> String {
        self.url
    }

    /// The number that the next command without an id of its own gets.
    pub closed spec fn counter(&self) -> u16 {
        self.corr_id
    }

    /// A client for the chat engine at `url`, with the counter at zero.
    pub fn new(url: String) -> (client: Self)
        ensures
            client.endpoint() == url,
            client.counter() == 0,
    {
        ChatClient { url, corr_id: 0 }
    }

    /// The endpoint that the client talks to.
    pub fn url(&self) -> (url: &String)
        ensures
            *url == self.endpoint(),
    {
        &self.url
    }

    /// Reads one inbound frame: the envelope in it, or the error that it
    /// stands for.
    pub fn handle_server_message(msg: Inbound) -> (r: StreamMessage)
        ensures
            r == inbound_meaning(msg),
    {
        match msg {
            Inbound::Envelope(response) => Ok(response),
            Inbound::Malformed(reason) => Err(TransportError::InvalidFormat(reason)),
            Inbound::Close => Err(TransportError::ConnectionClosed),
            Inbound::Other => Err(TransportError::GenericError),
            Inbound::Failed(reason) => Err(TransportError::WebSocket(reason)),
            Inbound::End => Err(TransportError::ConnectionClosed),
        }
    }

    /// Shapes the envelope for a command. The envelope carries the caller's
    /// id where one is given; otherwise it takes the counter's number, in
    /// decimal, and the counter moves on.
    pub fn send_command(&mut self, command_text: String, corr_id: Option<String>) -> (envelope:
        CommandPayload)
        ensures
            envelope.cmd == command_text,
            final(self).endpoint() == old(self).endpoint(),
            match corr_id {
                Some(id) => envelope.corr_id == Some(id) && final(self).counter() == old(
                    self,
                ).counter(),
                None => {
                    &&& envelope.corr_id matches Some(id)
                    &&& id@ == decimal(old(self).counter() as nat)
                    &&& final(self).counter() == next_corr_id(old(self).counter())
                },
            },
    {
        let corr_id_string = match corr_id {
            Some(id) => id,
            None => {
                let id = to_decimal(self.corr_id as u64);
                self.corr_id = if self.corr_id == u16::MAX {
                    0
                } else {
                    self.corr_id + 1
                };
                id
            },
        };
        CommandPayload { corr_id: Some(corr_id_string), cmd: command_text }
    }

    /// Shapes the envelope that sends `text` to the chat `chat_id`, under the
    /// counter's next number. The command addresses the chat as a direct
    /// chat, whatever `chat_type` says. Every text has its command; the
    /// result type leaves room for the JSON writer's error.
    pub fn send_text(&mut self, chat_type: ChatInfoType, chat_id: u64, text: String) -> (r: Result<
        CommandPayload,
        TransportError,
    >)
        ensures
            r is Ok,
            final(self).endpoint() == old(self).endpoint(),
            final(self).counter() == next_corr_id(old(self).counter()),
            r matches Ok(envelope) ==> {
                &&& envelope.cmd@ == text_command_text(chat_id as nat, json_string(text@))
                &&& envelope.corr_id matches Some(id)
                &&& id@ == decimal(old(self).counter() as nat)
            },
    {
        match quote(text.as_str()) {
            Ok(text_json) => {
                let command_string = frame_text_command(chat_id, text_json.as_str());
                Ok(self.send_command(command_string, None))
            },
            Err(e) => Err(e),
        }
    }
}

} // verus!
