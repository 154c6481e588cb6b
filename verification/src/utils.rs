//! Plain text out of received chat items.

use crate::response::{CIContent, MsgContent};
use vstd::prelude::*;

verus! {

/// The text that a message content carries: every kind but an image has one.
pub open spec fn msg_content_text(msg_content: MsgContent) -> Option<String> {
    match msg_content {
        MsgContent::Text(mc_text) => Some(mc_text.text),
        MsgContent::Link(mc_link) => Some(mc_link.text),
        MsgContent::File(mc_file) => Some(mc_file.text),
        MsgContent::Unknown(mc_unknown) => Some(mc_unknown.text),
        MsgContent::Image(_) => None,
    }
}

/// The text of a chat item: that of its message, where the item is a sent or
/// a received message, and none for deletions and file invitations.
pub open spec fn content_text(content: CIContent) -> Option<String> {
    match content {
        CIContent::SndMsgContent(msg) => msg_content_text(msg.msg_content),
        CIContent::RcvMsgContent(msg) => msg_content_text(msg.msg_content),
        _ => None,
    }
}

/// Takes the text out of a chat item, if it is a message that has one.
pub fn extract_text_content(content: CIContent) -> (text: Option<String>)
    ensures
        text == content_text(content),
{
    match content {
        CIContent::SndMsgContent(msg) => extract_text_from_msg_content(msg.msg_content),
        CIContent::RcvMsgContent(msg) => extract_text_from_msg_content(msg.msg_content),
        _ => None,
    }
}

/// Takes the text out of a message content, if it has one.
pub fn extract_text_from_msg_content(msg_content: MsgContent) -> (text: Option<String>)
    ensures
        text == msg_content_text(msg_content),
{
    match msg_content {
        MsgContent::Text(mc_text) => Some(mc_text.text),
        MsgContent::Link(mc_link) => Some(mc_link.text),
        MsgContent::File(mc_file) => Some(mc_file.text),
        MsgContent::Unknown(mc_unknown) => Some(mc_unknown.text),
        MsgContent::Image(_) => None,
    }
}

} // verus!
