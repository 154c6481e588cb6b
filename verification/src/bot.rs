//! What a bot answers to: the text messages that contacts sent in direct
//! chats.

use crate::response::{AChatItem, ChatInfo, ChatResponse, DirectionType};
use crate::utils::{content_text, extract_text_content};
use vstd::prelude::*;

verus! {

/// A text that a contact sent in a direct chat.
#[derive(Debug, Clone, PartialEq, Eq)]
pub struct TextRequest {
    /// The contact to answer.
    pub contact_id: u64,
    pub text: String,
}

/// The request in a chat item: the item belongs to a direct chat, was not
/// sent by the user, and has a text.
pub open spec fn item_request(item: AChatItem) -> Option<TextRequest> {
    match item.chat_info {
        ChatInfo::Direct(direct) => if item.chat_item.chat_dir.direction_type is DirectSnd {
            None
        } else {
            match content_text(item.chat_item.content) {
                Some(text) => Some(TextRequest { contact_id: direct.contact.contact_id, text }),
                None => None,
            }
        },
        _ => None,
    }
}

/// The requests in a list of chat items, in the order of the items.
pub open spec fn item_requests(items: Seq<AChatItem>) -> Seq<TextRequest>
    decreases items.len(),
{
    if items.len() == 0 {
        Seq::empty()
    } else {
        match item_request(items.last()) {
            Some(request) => item_requests(items.drop_last()).push(request),
            None => item_requests(items.drop_last()),
        }
    }
}

/// The requests in an event: those of its items where it brings new chat
/// items, and none otherwise.
pub open spec fn event_requests(event: ChatResponse) -> Seq<TextRequest> {
    match event {
        ChatResponse::NewChatItems { chat_items, .. } => item_requests(chat_items@),
        _ => Seq::empty(),
    }
}

/// Takes the request out of a chat item, if it holds one.
pub fn request_of(item: AChatItem) -> (request: Option<TextRequest>)
    ensures
        request == item_request(item),
{
    match item.chat_info {
        ChatInfo::Direct(direct) => {
            match item.chat_item.chat_dir.direction_type {
                DirectionType::DirectSnd => None,
                _ => match extract_text_content(item.chat_item.content) {
                    Some(text) => Some(TextRequest { contact_id: direct.contact.contact_id, text }),
                    None => None,
                },
            }
        },
        _ => None,
    }
}

/// Takes the requests out of an event, in the order of its items.
pub fn requests_of(event: ChatResponse) -> (requests: Vec<TextRequest>)
    ensures
        requests@ == event_requests(event),
{
    match event {
        ChatResponse::NewChatItems { chat_items, .. } => {
            let mut requests: Vec<TextRequest> = Vec::new();
            let ghost all = chat_items@;
            for item in items: chat_items
                invariant
                    items.seq() == all,
                    requests@ == item_requests(all.take(items.index())),
            {
                let ghost seen = all.take(items.index() + 1);
                assert(seen.drop_last() == all.take(items.index()));
                assert(seen.last() == item);
                match request_of(item) {
                    Some(request) => {
                        requests.push(request);
                    },
                    None => {},
                }
            }
            assert(all.take(all.len() as int) == all);
            requests
        },
        _ => Vec::new(),
    }
}

} // verus!
