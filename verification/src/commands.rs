//! Outgoing commands: the envelope, its wire form and the command texts that
//! the client knows by name.

use crate::decimal::{decimal, to_decimal};
use crate::error::TransportError;
use crate::json::{json_string, quote};
use crate::response::MsgContent;
use vstd::prelude::*;
use vstd::string::StringExecFns;

verus! {

/// An outbound envelope: the command text and the id that its reply will
/// carry.
#[derive(Debug, Clone, PartialEq, Eq)]
pub struct CommandPayload {
    pub corr_id: Option<String>,
    pub cmd: String,
}

/// The commands that the client knows by name.
#[derive(Debug, Clone, Copy, PartialEq, Eq)]
pub enum ChatCommand {
    ShowActiveUser,
    CreateActiveUser,
    ListUsers,
    APISetActiveUser,
    ShowMyAddress,
    CreateMyAddress,
    AddressAutoAccept,
}

#[derive(Debug, Clone, PartialEq, Eq)]
pub struct AutoAccept {
    pub accept_incognito: bool,
    pub auto_reply: Option<MsgContent>,
}

#[derive(Debug, Clone, PartialEq, Eq)]
pub struct LinkPreview {
    pub uri: String,
    pub title: String,
    pub description: String,
    pub image: String,
}

/// One message of a send command.
#[derive(Debug, Clone, PartialEq, Eq)]
pub struct ComposedMessage {
    pub file_path: Option<String>,
    pub quoted_item_id: Option<u64>,
    pub msg_content: MsgContent,
}

/// What a send command says: the chat and the messages for it.
#[derive(Debug, Clone, PartialEq, Eq)]
pub struct CommandData {
    pub chat_type: String,
    pub chat_id: u64,
    pub messages: Vec<ComposedMessage>,
}

impl ChatCommand {
    /// The text of the command on the wire; empty for the commands that need
    /// arguments the client does not supply.
    pub open spec fn spec_value(&self) -> Seq<char> {
        match self {
            ChatCommand::ShowActiveUser => "/u"@,
            ChatCommand::ShowMyAddress => "/show_address"@,
            ChatCommand::CreateMyAddress => "/address"@,
            ChatCommand::AddressAutoAccept => "/auto_accept on"@,
            _ => ""@,
        }
    }

    /// The text of the command on the wire.
    pub fn value(&self) -> (s: &'static str)
        ensures
            s@ == self.spec_value(),
    {
        match self {
            ChatCommand::ShowActiveUser => "/u",
            ChatCommand::ShowMyAddress => "/show_address",
            ChatCommand::CreateMyAddress => "/address",
            ChatCommand::AddressAutoAccept => "/auto_accept on",
            _ => "",
        }
    }
}

/// The wire form of an envelope whose two parts are already JSON: the object
/// `{"corrId":…,"cmd":…}`, with `null` where there is no id.
pub open spec fn envelope_text(corr_id_json: Option<Seq<char>>, cmd_json: Seq<char>) -> Seq<char> {
    "{\"corrId\":"@ + (match corr_id_json {
        Some(id) => id,
        None => "null"@,
    }) + ",\"cmd\":"@ + cmd_json + "}"@
}

/// The wire form of an envelope.
pub open spec fn wire_text(command: CommandPayload) -> Seq<char> {
    envelope_text(
        match command.corr_id {
            Some(id) => Some(json_string(id@)),
            None => None,
        },
        json_string(command.cmd@),
    )
}

/// The command that sends one text message to the direct chat `chat_id`; the
/// text is already a JSON string literal.
pub open spec fn text_command_text(chat_id: nat, text_json: Seq<char>) -> Seq<char> {
    "/_send @"@ + decimal(chat_id) + " json [{\"msgContent\":{\"type\":\"text\",\"text\":"@
        + text_json + "}}]"@
}

/// Puts an envelope together from its two parts, each already JSON.
pub fn frame_envelope(corr_id_json: Option<String>, cmd_json: &str) -> (text: String)
    ensures
        text@ == envelope_text(
            match corr_id_json {
                Some(id) => Some(id@),
                None => None,
            },
            cmd_json@,
        ),
{
    let head = String::from_str("{\"corrId\":");
    let with_id = match corr_id_json {
        Some(id) => head.concat(id.as_str()),
        None => head.concat("null"),
    };
    with_id.concat(",\"cmd\":").concat(cmd_json).concat("}")
}

/// Puts together the command that sends one text message to a direct chat.
pub fn frame_text_command(chat_id: u64, text_json: &str) -> (command: String)
    ensures
        command@ == text_command_text(chat_id as nat, text_json@),
{
    let id = to_decimal(chat_id);
    String::from_str("/_send @").concat(id.as_str()).concat(
        " json [{\"msgContent\":{\"type\":\"text\",\"text\":",
    ).concat(text_json).concat("}}]")
}

impl CommandPayload {
    /// Writes the envelope as the text frame that goes on the wire. Every
    /// envelope has one; the result type leaves room for the JSON writer's
    /// error.
    pub fn to_wire(&self) -> (r: Result<String, TransportError>)
        ensures
            r is Ok,
            r matches Ok(text) ==> text@ == wire_text(*self),
    {
        let corr_id_json = match &self.corr_id {
            Some(id) => match quote(id.as_str()) {
                Ok(literal) => Some(literal),
                Err(e) => {
                    return Err(e);
                },
            },
            None => None,
        };
        match quote(self.cmd.as_str()) {
            Ok(cmd_json) => Ok(frame_envelope(corr_id_json, cmd_json.as_str())),
            Err(e) => Err(e),
        }
    }
}

} // verus!
