//! The vocabulary of the chat engine: the inbound envelope and the events and
//! replies it carries.
//!
//! Timestamps and free-form JSON values are kept as the text that was on the
//! wire: nothing in the client reads inside them.

use vstd::prelude::*;

verus! {

/// The locally stored profile of a user or contact.
#[derive(Debug, Clone, PartialEq, Eq)]
pub struct LocalProfile {
    pub profile_id: u64,
    pub display_name: String,
    pub full_name: String,
    pub local_alias: String,
}

/// A user profile as the chat engine reports it.
#[derive(Debug, Clone, PartialEq, Eq)]
pub struct User {
    pub user_id: u64,
    pub agent_user_id: String,
    pub user_contact_id: u64,
    pub local_display_name: String,
    pub profile: LocalProfile,
    pub full_preferences: SimplePreferences,
    pub active_user: bool,
    pub active_order: Option<i32>,
    pub show_ntfs: bool,
    pub send_rcpts_contacts: bool,
    pub send_rcpts_small_groups: bool,
    pub view_pwd_hash: Option<String>,
}

/// An inbound envelope: an optional correlation id and the event it carries.
#[derive(Debug, Clone, PartialEq, Eq)]
pub struct ServerResponse {
    pub corr_id: Option<String>,
    pub resp: ChatResponse,
}

/// What the chat engine says: the reply to a command or an event of its own.
#[derive(Debug, Clone, PartialEq, Eq)]
pub enum ChatResponse {
    ActiveUser { user: User },
    FullUserResponse {
        user: User,
        active_order: Option<i32>,
        full_preferences: Option<FullPreferences>,
    },
    UserContactLink {
        contact_link: AddressPayload,
        user: User,
    },
    ChatCmdError {
        chat_error: ChatError,
        user: Option<User>,
    },
    UserContactSubSummary {
        user: User,
        user_contact_subscriptions: Vec<ContactSubscriptions>,
    },
    ContactSubSummary {
        user: User,
        contact_subscriptions: Vec<ContactSubscriptions>,
    },
    MemberSubSummary {
        user: User,
        member_subscriptions: Vec<MemberSubStatus>,
    },
    PendingSubSummary {
        user: User,
        pending_subscriptions: Vec<PendingSubStatus>,
    },
    UserContactLinkCreated {
        user: User,
        connection_request_contact: String,
    },
    UserContactLinkUpdated {
        user: User,
        contact_link: ContactLink,
    },
    ReceivedContactRequest {
        user: User,
        contact_request: UserContactRequest,
    },
    AcceptingContactRequest { user: User, contact: Contact },
    ContactSndReady { user: User, contact: Contact },
    ContactConnected { user: User, contact: Contact },
    NewChatItems {
        user: User,
        chat_items: Vec<AChatItem>,
    },
    UnknownMessage,
}

#[derive(Debug, Clone, PartialEq, Eq)]
pub struct ContactSubscriptions {}

#[derive(Debug, Clone, PartialEq, Eq)]
pub struct PendingSubStatus {}

#[derive(Debug, Clone, PartialEq, Eq)]
pub struct MemberSubStatus {}

#[derive(Debug, Clone, PartialEq, Eq)]
pub struct GroupMember {
    pub group_member_id: u64,
    pub member_id: String,
    pub member_role: GroupMemberRole,
}

#[derive(Debug, Clone, PartialEq, Eq)]
pub enum GroupMemberRole {
    Member,
    Admin,
    Owner,
}

#[derive(Debug, Clone, PartialEq, Eq)]
pub struct FullPreferences {
    pub timed_messages: PreferenceSettings,
    pub full_delete: PreferenceSettings,
    pub voice: PreferenceSettings,
    pub calls: PreferenceSettings,
    pub reactions: PreferenceSettings,
}

#[derive(Debug, Clone, PartialEq, Eq)]
pub struct SimplePreferences {
    pub timed_messages: Preference,
    pub full_delete: Preference,
    pub voice: Preference,
    pub calls: Preference,
    pub reactions: Preference,
}

#[derive(Debug, Clone, PartialEq, Eq)]
pub struct TimedMessages {
    pub enabled: EnabledSettings,
    pub user_preference: UserPreference,
    pub contact_preference: Preference,
}

#[derive(Debug, Clone, PartialEq, Eq)]
pub struct UserPreference {
    pub preference_type: String,
    pub preference: Preference,
}

#[derive(Debug, Clone, PartialEq, Eq)]
pub struct EnabledSettings {
    pub for_user: bool,
    pub for_contact: bool,
}

#[derive(Debug, Clone, PartialEq, Eq)]
pub struct FullDelete {
    pub allow: String,
}

#[derive(Debug, Clone, PartialEq, Eq)]
pub struct Reactions {
    pub allow: String,
}

#[derive(Debug, Clone, PartialEq, Eq)]
pub struct Voice {
    pub allow: String,
}

#[derive(Debug, Clone, PartialEq, Eq)]
pub struct Calls {
    pub allow: String,
}

#[derive(Debug, Clone, PartialEq, Eq)]
pub struct Preference {
    pub allow: AllowPreference,
}

#[derive(Debug, Clone, PartialEq, Eq)]
pub enum AllowPreference {
    Yes,
    No,
}

#[derive(Debug, Clone, PartialEq, Eq)]
pub struct PreferenceSettings {
    pub enabled: EnabledSettings,
    pub user_preference: UserPreference,
    pub contact_preference: Preference,
}

#[derive(Debug, Clone, PartialEq, Eq)]
pub struct AddressPayload {
    pub connection_request_contact: String,
}

/// The error that the chat engine attaches to a failed command.
#[derive(Debug, Clone, PartialEq, Eq)]
pub struct ChatError {
    pub error_type: String,
    pub store_error: Option<StoreErrorType>,
}

#[derive(Debug, Clone, PartialEq, Eq)]
pub struct ChatErrorChat {
    pub error_type: ChatErrorType,
}

#[derive(Debug, Clone, PartialEq, Eq)]
pub struct ChatErrorAgent {
    pub agent_error: AgentErrorType,
}

#[derive(Debug, Clone, PartialEq, Eq)]
pub struct ChatErrorStore {
    pub store_error: StoreErrorType,
}

#[derive(Debug, Clone, PartialEq, Eq)]
pub enum ChatErrorType {
    CENoActiveUser(CENoActiveUser),
    CEActiveUserExists(CEActiveUserExists),
}

#[derive(Debug, Clone, PartialEq, Eq)]
pub struct CENoActiveUser;

#[derive(Debug, Clone, PartialEq, Eq)]
pub struct CEActiveUserExists;

/// An error of the messaging agent; `additional_info` is kept as JSON text.
#[derive(Debug, Clone, PartialEq, Eq)]
pub struct AgentErrorType {
    pub error_type: String,
    pub additional_info: String,
}

#[derive(Debug, Clone, PartialEq, Eq)]
pub struct StoreErrorType {
    pub error_type: String,
}

/// A request of somebody to become a contact; `created_at` is RFC 3339 text.
#[derive(Debug, Clone, PartialEq, Eq)]
pub struct UserContactRequest {
    pub contact_request_id: u64,
    pub local_display_name: String,
    pub profile: LocalProfile,
    pub created_at: String,
}

#[derive(Debug, Clone, PartialEq, Eq)]
pub struct ContactLink {
    pub auto_accept: AutoAccept,
    pub connection_request_contact: String,
}

#[derive(Debug, Clone, PartialEq, Eq)]
pub struct AutoAccept {
    pub accept_incognito: bool,
}

/// A contact of the active user.
#[derive(Debug, Clone, PartialEq, Eq)]
pub struct Contact {
    pub contact_id: u64,
    pub local_display_name: String,
    pub profile: LocalProfile,
    pub active_conn: Connection,
    pub contact_used: bool,
    pub contact_status: String,
    pub chat_settings: ChatSettings,
    pub user_preferences: UserPreferences,
    pub merged_preferences: FullPreferences,
    pub created_at: String,
    pub updated_at: String,
    pub contact_grp_inv_sent: bool,
    pub chat_deleted: bool,
}

#[derive(Debug, Clone, PartialEq, Eq)]
pub struct UserPreferences {}

#[derive(Debug, Clone, PartialEq, Eq)]
pub struct ChatSettings {
    pub enable_ntfs: String,
    pub favorite: bool,
}

#[derive(Debug, Clone, PartialEq, Eq)]
pub struct Connection {
    pub conn_id: u64,
}

/// One chat item together with the chat it belongs to.
#[derive(Debug, Clone, PartialEq, Eq)]
pub struct AChatItem {
    pub chat_info: ChatInfo,
    pub chat_item: ChatItem,
}

/// A chat item; each reaction is kept as JSON text.
#[derive(Debug, Clone, PartialEq, Eq)]
pub struct ChatItem {
    pub chat_dir: CIDirection,
    pub meta: CIMeta,
    pub content: CIContent,
    pub formatted_text: Option<Vec<FormattedText>>,
    pub quoted_item: Option<CIQuote>,
    pub reactions: Vec<String>,
}

/// The chat that an item belongs to.
#[derive(Debug, Clone, PartialEq, Eq)]
pub enum ChatInfo {
    Direct(CInfoDirect),
    Group(CInfoGroup),
    ContactRequest(CInfoContactRequest),
}

#[derive(Debug, Clone, PartialEq, Eq)]
pub struct CInfoDirect {
    pub contact: Contact,
}

#[derive(Debug, Clone, PartialEq, Eq)]
pub struct CInfoGroup {
    pub group_info: GroupInfo,
}

#[derive(Debug, Clone, PartialEq, Eq)]
pub struct CInfoContactRequest {
    pub contact_request: UserContactRequest,
}

/// The kind of a chat, as commands address it.
#[derive(Debug, Clone, PartialEq, Eq)]
pub enum ChatInfoType {
    Direct,
    Group,
    ContactRequest,
}

#[derive(Debug, Clone, PartialEq, Eq)]
pub struct CIDirection {
    pub direction_type: DirectionType,
}

/// Who sent an item, and in what kind of chat.
#[derive(Debug, Clone, PartialEq, Eq)]
pub enum DirectionType {
    DirectSnd,
    DirectRcv,
    GroupSnd,
    GroupRcv,
}

/// The content of a chat item.
#[derive(Debug, Clone, PartialEq, Eq)]
pub enum CIContent {
    SndMsgContent(CISndMsgContent),
    RcvMsgContent(CIRcvMsgContent),
    SndDeleted(CISndDeleted),
    RcvDeleted(CIRcvDeleted),
    SndFileInvitation(CISndFileInvitation),
    RcvFileInvitation(CIRcvFileInvitation),
}

#[derive(Debug, Clone, PartialEq, Eq)]
pub struct CISndMsgContent {
    pub msg_content: MsgContent,
}

#[derive(Debug, Clone, PartialEq, Eq)]
pub struct CIRcvMsgContent {
    pub msg_content: MsgContent,
}

#[derive(Debug, Clone, PartialEq, Eq)]
pub struct CISndDeleted {
    pub delete_mode: DeleteMode,
}

#[derive(Debug, Clone, PartialEq, Eq)]
pub struct CIRcvDeleted {
    pub delete_mode: DeleteMode,
}

#[derive(Debug, Clone, PartialEq, Eq)]
pub struct CISndFileInvitation {
    pub file_id: u64,
    pub file_path: String,
}

#[derive(Debug, Clone, PartialEq, Eq)]
pub struct CIRcvFileInvitation {
    pub rcv_file_transfer: RcvFileTransfer,
}

#[derive(Debug, Clone, PartialEq, Eq)]
pub struct FormattedText {}

#[derive(Debug, Clone, PartialEq, Eq)]
pub struct RcvFileTransfer {
    pub file_id: u64,
    pub sender_display_name: String,
    pub chunk_size: usize,
    pub cancelled: bool,
    pub grp_member_id: Option<u64>,
}

#[derive(Debug, Clone, PartialEq, Eq)]
pub struct CIQuote {
    pub chat_dir: Option<CIDirection>,
    pub item_id: Option<u64>,
    pub shared_msg_id: Option<String>,
    pub sent_at: String,
    pub content: MsgContent,
    pub formatted_text: Option<Vec<FormattedText>>,
}

#[derive(Debug, Clone, PartialEq, Eq)]
pub enum DeleteMode {
    Broadcast,
    Internal,
}

#[derive(Debug, Clone, PartialEq, Eq)]
pub enum CIStatus {
    SndNew(CISndNew),
    SndSent(CISndSent),
    SndErrorAuth(CISndErrorAuth),
    SndError(CISndError),
    RcvNew(CIRcvNew),
    RcvRead(CIRcvRead),
}

#[derive(Debug, Clone, PartialEq, Eq)]
pub struct CISndNew {}

#[derive(Debug, Clone, PartialEq, Eq)]
pub struct CISndSent {}

#[derive(Debug, Clone, PartialEq, Eq)]
pub struct CISndErrorAuth {}

#[derive(Debug, Clone, PartialEq, Eq)]
pub struct CISndError {
    pub agent_error: AgentErrorType,
}

#[derive(Debug, Clone, PartialEq, Eq)]
pub struct CIRcvNew {}

#[derive(Debug, Clone, PartialEq, Eq)]
pub struct CIRcvRead {}

#[derive(Debug, Clone, PartialEq, Eq)]
pub enum StatusType {
    SndNew,
    SndSent,
    SndErrorAuth,
    SndError,
    RcvNew,
    RcvRead,
}

#[derive(Debug, Clone, PartialEq, Eq)]
pub struct GroupInfo {
    pub group_id: u64,
    pub local_display_name: String,
    pub group_profile: GroupProfile,
    pub membership: GroupMember,
    pub created_at: String,
}

#[derive(Debug, Clone, PartialEq, Eq)]
pub struct GroupProfile {
    pub display_name: String,
    pub full_name: String,
    pub image: Option<String>,
}

/// The content of a message.
#[derive(Debug, Clone, PartialEq, Eq)]
pub enum MsgContent {
    Text(MCText),
    Link(MCLink),
    Image(MCImage),
    File(MCFile),
    Unknown(MCUnknown),
}

#[derive(Debug, Clone, PartialEq, Eq)]
pub struct MCText {
    pub text: String,
}

#[derive(Debug, Clone, PartialEq, Eq)]
pub struct MCLink {
    pub text: String,
    pub preview: LinkPreview,
}

#[derive(Debug, Clone, PartialEq, Eq)]
pub struct MCImage {
    pub image: String,
}

#[derive(Debug, Clone, PartialEq, Eq)]
pub struct MCFile {
    pub text: String,
}

#[derive(Debug, Clone, PartialEq, Eq)]
pub struct MCUnknown {
    pub unknown_type: String,
    pub text: String,
}

#[derive(Debug, Clone, PartialEq, Eq)]
pub struct LinkPreview {
    pub uri: String,
    pub title: String,
    pub description: String,
    pub image: String,
}


/// The metadata of a chat item. Timestamps are kept as the RFC 3339 text
/// that the chat engine sent.
#[derive(Debug, Clone, PartialEq, Eq)]
pub struct CIMeta {
    pub item_id: ChatItemId,
    pub item_ts: String,
    pub item_text: String,
    pub item_status: CIStatus,
    pub created_at: String,
    pub updated_at: String,
    pub item_shared_msg_id: String,
    pub item_deleted: Option<bool>,
    pub item_edited: bool,
    pub editable: bool,
    pub deletable: bool,
}

/// An envelope with no correlation id and an unknown event.
pub open spec fn default_server_response() -> ServerResponse {
    ServerResponse { corr_id: None, resp: ChatResponse::UnknownMessage }
}

impl Default for ChatResponse {
    fn default() -> (r: Self)
        ensures
            r == ChatResponse::UnknownMessage,
    {
        ChatResponse::UnknownMessage
    }
}

impl Default for ServerResponse {
    fn default() -> (r: Self)
        ensures
            r == default_server_response(),
    {
        ServerResponse { corr_id: None, resp: ChatResponse::UnknownMessage }
    }
}

impl ChatResponse {
    /// The user of a full user response.
    pub open spec fn spec_as_user(&self) -> Option<&User> {
        match self {
            ChatResponse::FullUserResponse { user, .. } => Some(user),
            _ => None,
        }
    }

    /// The user of an active-user reply.
    pub open spec fn spec_as_active_user(&self) -> Option<&User> {
        match self {
            ChatResponse::ActiveUser { user } => Some(user),
            _ => None,
        }
    }

    /// The address that a contact-link reply shows.
    pub open spec fn spec_as_user_contact_link(&self) -> Option<String> {
        match self {
            ChatResponse::UserContactLink { contact_link, .. } => Some(
                contact_link.connection_request_contact,
            ),
            _ => None,
        }
    }

    /// The address that a link-created reply announces.
    pub open spec fn spec_as_contact_link_created(&self) -> Option<String> {
        match self {
            ChatResponse::UserContactLinkCreated { connection_request_contact, .. } => Some(
                *connection_request_contact,
            ),
            _ => None,
        }
    }

    /// The user, if this is a full user response.
    #[verifier::when_used_as_spec(spec_as_user)]
    pub fn as_user(&self) -> (r: Option<&User>)
        ensures
            r == self.spec_as_user(),
    {
        match self {
            ChatResponse::FullUserResponse { user, .. } => Some(user),
            _ => None,
        }
    }

    /// The user, if this is an active-user reply.
    #[verifier::when_used_as_spec(spec_as_active_user)]
    pub fn as_active_user(&self) -> (r: Option<&User>)
        ensures
            r == self.spec_as_active_user(),
    {
        match self {
            ChatResponse::ActiveUser { user, .. } => Some(user),
            _ => None,
        }
    }

    /// The address of the user, if this is a contact-link reply.
    #[verifier::when_used_as_spec(spec_as_user_contact_link)]
    pub fn as_user_contact_link(&self) -> (r: Option<String>)
        ensures
            r == self.spec_as_user_contact_link(),
    {
        match self {
            ChatResponse::UserContactLink { contact_link, .. } => {
                Some(contact_link.connection_request_contact.clone())
            },
            _ => None,
        }
    }

    /// The new address, if this reply says that one was created.
    #[verifier::when_used_as_spec(spec_as_contact_link_created)]
    pub fn as_create_address(&self) -> (r: Option<String>)
        ensures
            r == self.spec_as_contact_link_created(),
    {
        match self {
            ChatResponse::UserContactLinkCreated { connection_request_contact, .. } => {
                Some(connection_request_contact.clone())
            },
            _ => None,
        }
    }

    /// The new address, if this reply says that one was created.
    #[verifier::when_used_as_spec(spec_as_contact_link_created)]
    pub fn as_contact_link_created(&self) -> (r: Option<String>)
        ensures
            r == self.spec_as_contact_link_created(),
    {
        match self {
            ChatResponse::UserContactLinkCreated { connection_request_contact, .. } => {
                Some(connection_request_contact.clone())
            },
            _ => None,
        }
    }
}

impl ChatInfoType {
    /// The sigil that addresses a chat of this kind in a command.
    pub open spec fn spec_value(&self) -> Seq<char> {
        match self {
            ChatInfoType::Direct => seq!['@'],
            ChatInfoType::Group => seq!['#'],
            ChatInfoType::ContactRequest => seq!['<', '@'],
        }
    }

    /// The sigil that addresses a chat of this kind in a command.
    pub fn value(&self) -> (s: &'static str)
        ensures
            s@ == self.spec_value(),
    {
        proof {
            reveal_strlit("@");
            reveal_strlit("#");
            reveal_strlit("<@");
        }
        match self {
            ChatInfoType::Direct => "@",
            ChatInfoType::Group => "#",
            ChatInfoType::ContactRequest => "<@",
        }
    }
}

pub type ChatItemId = u64;

} // verus!
