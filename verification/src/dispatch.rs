//! The command surface: the closed method table, its routing rule, and the
//! result-shaping logic of the calls.
//!
//! A remote call arrives as a [`Call`]: one variant per supported method,
//! positional arguments as fields, the account identifier first on every
//! account-scoped method. Routing is a total function from call to lock
//! class: registry mutators need exclusive access, registry reads shared
//! access, and an account call only the one shared lookup of its account —
//! after which the caller drives the core operation and shapes its reply
//! with the functions below, each verified against an exact statement of
//! the shape.

use vstd::prelude::*;

use crate::errors::{ErrorKind, Failure};

verus! {

/// How long a chat is muted.
pub enum MuteDuration {
    NotMuted,
    Forever,
    Until(i64),
}

/// The kind of message content a media query asks for.
#[derive(Clone, Copy, Debug, PartialEq, Eq, Structural)]
pub enum MessageViewtype {
    Unknown,
    Text,
    Image,
    Gif,
    Sticker,
    Audio,
    Voice,
    Video,
    File,
    VideochatInvitation,
    Webxdc,
}

/// One entry of the chat list as the command surface returns it: the chat
/// and its newest message, zero when the chat has none.
#[derive(Clone, Copy, Debug, PartialEq, Eq, Structural)]
pub struct ChatListEntry(pub u32, pub u32);

/// The supported methods, one variant per method name, positional
/// arguments as fields. An account-scoped method carries its account
/// identifier first. The table is closed: anything else is refused as an
/// unknown method before it reaches the registry.
///
/// The send call's optional coordinates stay with the caller: they are
/// floating-point and only handed onward to the core.
pub enum Call {
    CheckEmailValidity { email: String },
    GetSystemInfo,
    AddAccount,
    RemoveAccount { account_id: u32 },
    GetAllAccountIds,
    SelectAccount { account_id: u32 },
    GetSelectedAccountId,
    GetAllAccounts,
    GetAccountInfo { account_id: u32 },
    GetProviderInfo { account_id: u32, email: String },
    IsConfigured { account_id: u32 },
    GetInfo { account_id: u32 },
    SetConfig { account_id: u32, key: String, value: Option<String> },
    BatchSetConfig { account_id: u32, config: Vec<(String, Option<String>)> },
    SetConfigFromQr { account_id: u32, qr_content: String },
    CheckQr { account_id: u32, qr_content: String },
    GetConfig { account_id: u32, key: String },
    BatchGetConfig { account_id: u32, keys: Vec<String> },
    Configure { account_id: u32 },
    StopOngoingProcess { account_id: u32 },
    GetFreshMsgs { account_id: u32 },
    GetFreshMsgCnt { account_id: u32, chat_id: u32 },
    AutocryptInitiateKeyTransfer { account_id: u32 },
    AutocryptContinueKeyTransfer { account_id: u32, message_id: u32, setup_code: String },
    GetChatlistEntries { account_id: u32, list_flags: Option<u32>, query_string: Option<String>, query_contact_id: Option<u32> },
    GetChatlistItemsByEntries { account_id: u32, entries: Vec<ChatListEntry> },
    ChatlistGetFullChatById { account_id: u32, chat_id: u32 },
    GetBasicChatInfo { account_id: u32, chat_id: u32 },
    AcceptChat { account_id: u32, chat_id: u32 },
    BlockChat { account_id: u32, chat_id: u32 },
    DeleteChat { account_id: u32, chat_id: u32 },
    GetChatEncryptionInfo { account_id: u32, chat_id: u32 },
    GetChatSecurejoinQrCodeSvg { account_id: u32, chat_id: Option<u32> },
    LeaveGroup { account_id: u32, chat_id: u32 },
    RemoveContactFromChat { account_id: u32, chat_id: u32, contact_id: u32 },
    AddContactToChat { account_id: u32, chat_id: u32, contact_id: u32 },
    AddDeviceMessage { account_id: u32, label: String, text: String },
    MarknoticedChat { account_id: u32, chat_id: u32 },
    GetFirstUnreadMessageOfChat { account_id: u32, chat_id: u32 },
    SetChatMuteDuration { account_id: u32, chat_id: u32, duration: MuteDuration },
    IsChatMuted { account_id: u32, chat_id: u32 },
    MarkseenMsgs { account_id: u32, msg_ids: Vec<u32> },
    MessageListGetMessageIds { account_id: u32, chat_id: u32, flags: u32 },
    MessageGetMessage { account_id: u32, message_id: u32 },
    MessageGetMessages { account_id: u32, message_ids: Vec<u32> },
    MessageGetNotificationInfo { account_id: u32, message_id: u32 },
    DeleteMessages { account_id: u32, message_ids: Vec<u32> },
    GetMessageInfo { account_id: u32, message_id: u32 },
    ContactsGetContact { account_id: u32, contact_id: u32 },
    ContactsCreateContact { account_id: u32, email: String, name: Option<String> },
    ContactsCreateChatByContactId { account_id: u32, contact_id: u32 },
    ContactsBlock { account_id: u32, contact_id: u32 },
    ContactsUnblock { account_id: u32, contact_id: u32 },
    ContactsGetBlocked { account_id: u32 },
    ContactsGetContactIds { account_id: u32, list_flags: u32, query: Option<String> },
    ContactsGetContacts { account_id: u32, list_flags: u32, query: Option<String> },
    ContactsGetContactsByIds { account_id: u32, ids: Vec<u32> },
    GetContactEncryptionInfo { account_id: u32, contact_id: u32 },
    ChatGetMedia { account_id: u32, chat_id: Option<u32>, message_type: MessageViewtype, or_message_type2: Option<MessageViewtype>, or_message_type3: Option<MessageViewtype> },
    ChatGetNeighboringMedia { account_id: u32, msg_id: u32, message_type: MessageViewtype, or_message_type2: Option<MessageViewtype>, or_message_type3: Option<MessageViewtype> },
    MaybeNetwork,
    GetConnectivity { account_id: u32 },
    GetConnectivityHtml { account_id: u32 },
    WebxdcSendStatusUpdate { account_id: u32, instance_msg_id: u32, update_str: String, description: String },
    WebxdcGetStatusUpdates { account_id: u32, instance_msg_id: u32, last_known_serial: u32 },
    MessageGetWebxdcInfo { account_id: u32, instance_msg_id: u32 },
    ForwardMessages { account_id: u32, message_ids: Vec<u32>, chat_id: u32 },
    RemoveDraft { account_id: u32, chat_id: u32 },
    GetDraft { account_id: u32, chat_id: u32 },
    MiscSendTextMessage { account_id: u32, text: String, chat_id: u32 },
    MiscSendMsg { account_id: u32, chat_id: u32, text: Option<String>, file: Option<String>, has_location: bool, quoted_message_id: Option<u32> },
    MiscSetDraft { account_id: u32, chat_id: u32, text: Option<String>, file: Option<String>, quoted_message_id: Option<u32> },
}

/// The lock class a call needs on the registry.
#[derive(Clone, Copy, Debug, PartialEq, Eq, Structural)]
pub enum Route {
    /// Mutates the account set or selection: exclusive registry access.
    RegistryWrite,
    /// Reads the account set or all accounts: shared registry access.
    RegistryRead,
    /// Scoped to the named account: one shared lookup of it, after which
    /// the registry is not held.
    Account(u32),
    /// Touches neither registry nor account.
    Standalone,
}

/// The routing rule: which lock class each method needs, and for an
/// account-scoped method, which account it is about.
pub open spec fn spec_route(c: Call) -> Route {
    match c {
        Call::CheckEmailValidity { .. } => Route::Standalone,
        Call::GetSystemInfo => Route::Standalone,
        Call::AddAccount => Route::RegistryWrite,
        Call::RemoveAccount { .. } => Route::RegistryWrite,
        Call::SelectAccount { .. } => Route::RegistryWrite,
        Call::GetAllAccountIds => Route::RegistryRead,
        Call::GetSelectedAccountId => Route::RegistryRead,
        Call::GetAllAccounts => Route::RegistryRead,
        Call::MaybeNetwork => Route::RegistryRead,
        Call::GetAccountInfo { account_id } => Route::Account(account_id),
        Call::GetProviderInfo { account_id, .. } => Route::Account(account_id),
        Call::IsConfigured { account_id } => Route::Account(account_id),
        Call::GetInfo { account_id } => Route::Account(account_id),
        Call::SetConfig { account_id, .. } => Route::Account(account_id),
        Call::BatchSetConfig { account_id, .. } => Route::Account(account_id),
        Call::SetConfigFromQr { account_id, .. } => Route::Account(account_id),
        Call::CheckQr { account_id, .. } => Route::Account(account_id),
        Call::GetConfig { account_id, .. } => Route::Account(account_id),
        Call::BatchGetConfig { account_id, .. } => Route::Account(account_id),
        Call::Configure { account_id } => Route::Account(account_id),
        Call::StopOngoingProcess { account_id } => Route::Account(account_id),
        Call::GetFreshMsgs { account_id } => Route::Account(account_id),
        Call::GetFreshMsgCnt { account_id, .. } => Route::Account(account_id),
        Call::AutocryptInitiateKeyTransfer { account_id } => Route::Account(account_id),
        Call::AutocryptContinueKeyTransfer { account_id, .. } => Route::Account(account_id),
        Call::GetChatlistEntries { account_id, .. } => Route::Account(account_id),
        Call::GetChatlistItemsByEntries { account_id, .. } => Route::Account(account_id),
        Call::ChatlistGetFullChatById { account_id, .. } => Route::Account(account_id),
        Call::GetBasicChatInfo { account_id, .. } => Route::Account(account_id),
        Call::AcceptChat { account_id, .. } => Route::Account(account_id),
        Call::BlockChat { account_id, .. } => Route::Account(account_id),
        Call::DeleteChat { account_id, .. } => Route::Account(account_id),
        Call::GetChatEncryptionInfo { account_id, .. } => Route::Account(account_id),
        Call::GetChatSecurejoinQrCodeSvg { account_id, .. } => Route::Account(account_id),
        Call::LeaveGroup { account_id, .. } => Route::Account(account_id),
        Call::RemoveContactFromChat { account_id, .. } => Route::Account(account_id),
        Call::AddContactToChat { account_id, .. } => Route::Account(account_id),
        Call::AddDeviceMessage { account_id, .. } => Route::Account(account_id),
        Call::MarknoticedChat { account_id, .. } => Route::Account(account_id),
        Call::GetFirstUnreadMessageOfChat { account_id, .. } => Route::Account(account_id),
        Call::SetChatMuteDuration { account_id, .. } => Route::Account(account_id),
        Call::IsChatMuted { account_id, .. } => Route::Account(account_id),
        Call::MarkseenMsgs { account_id, .. } => Route::Account(account_id),
        Call::MessageListGetMessageIds { account_id, .. } => Route::Account(account_id),
        Call::MessageGetMessage { account_id, .. } => Route::Account(account_id),
        Call::MessageGetMessages { account_id, .. } => Route::Account(account_id),
        Call::MessageGetNotificationInfo { account_id, .. } => Route::Account(account_id),
        Call::DeleteMessages { account_id, .. } => Route::Account(account_id),
        Call::GetMessageInfo { account_id, .. } => Route::Account(account_id),
        Call::ContactsGetContact { account_id, .. } => Route::Account(account_id),
        Call::ContactsCreateContact { account_id, .. } => Route::Account(account_id),
        Call::ContactsCreateChatByContactId { account_id, .. } => Route::Account(account_id),
        Call::ContactsBlock { account_id, .. } => Route::Account(account_id),
        Call::ContactsUnblock { account_id, .. } => Route::Account(account_id),
        Call::ContactsGetBlocked { account_id } => Route::Account(account_id),
        Call::ContactsGetContactIds { account_id, .. } => Route::Account(account_id),
        Call::ContactsGetContacts { account_id, .. } => Route::Account(account_id),
        Call::ContactsGetContactsByIds { account_id, .. } => Route::Account(account_id),
        Call::GetContactEncryptionInfo { account_id, .. } => Route::Account(account_id),
        Call::ChatGetMedia { account_id, .. } => Route::Account(account_id),
        Call::ChatGetNeighboringMedia { account_id, .. } => Route::Account(account_id),
        Call::GetConnectivity { account_id } => Route::Account(account_id),
        Call::GetConnectivityHtml { account_id } => Route::Account(account_id),
        Call::WebxdcSendStatusUpdate { account_id, .. } => Route::Account(account_id),
        Call::WebxdcGetStatusUpdates { account_id, .. } => Route::Account(account_id),
        Call::MessageGetWebxdcInfo { account_id, .. } => Route::Account(account_id),
        Call::ForwardMessages { account_id, .. } => Route::Account(account_id),
        Call::RemoveDraft { account_id, .. } => Route::Account(account_id),
        Call::GetDraft { account_id, .. } => Route::Account(account_id),
        Call::MiscSendTextMessage { account_id, .. } => Route::Account(account_id),
        Call::MiscSendMsg { account_id, .. } => Route::Account(account_id),
        Call::MiscSetDraft { account_id, .. } => Route::Account(account_id),
    }
}

/// Routes a call to its lock class.
pub fn route(c: &Call) -> (r: Route)
    ensures
        r == spec_route(*c),
{
    match c {
        Call::CheckEmailValidity { .. } => Route::Standalone,
        Call::GetSystemInfo => Route::Standalone,
        Call::AddAccount => Route::RegistryWrite,
        Call::RemoveAccount { .. } => Route::RegistryWrite,
        Call::SelectAccount { .. } => Route::RegistryWrite,
        Call::GetAllAccountIds => Route::RegistryRead,
        Call::GetSelectedAccountId => Route::RegistryRead,
        Call::GetAllAccounts => Route::RegistryRead,
        Call::MaybeNetwork => Route::RegistryRead,
        Call::GetAccountInfo { account_id } => Route::Account(*account_id),
        Call::GetProviderInfo { account_id, .. } => Route::Account(*account_id),
        Call::IsConfigured { account_id } => Route::Account(*account_id),
        Call::GetInfo { account_id } => Route::Account(*account_id),
        Call::SetConfig { account_id, .. } => Route::Account(*account_id),
        Call::BatchSetConfig { account_id, .. } => Route::Account(*account_id),
        Call::SetConfigFromQr { account_id, .. } => Route::Account(*account_id),
        Call::CheckQr { account_id, .. } => Route::Account(*account_id),
        Call::GetConfig { account_id, .. } => Route::Account(*account_id),
        Call::BatchGetConfig { account_id, .. } => Route::Account(*account_id),
        Call::Configure { account_id } => Route::Account(*account_id),
        Call::StopOngoingProcess { account_id } => Route::Account(*account_id),
        Call::GetFreshMsgs { account_id } => Route::Account(*account_id),
        Call::GetFreshMsgCnt { account_id, .. } => Route::Account(*account_id),
        Call::AutocryptInitiateKeyTransfer { account_id } => Route::Account(*account_id),
        Call::AutocryptContinueKeyTransfer { account_id, .. } => Route::Account(*account_id),
        Call::GetChatlistEntries { account_id, .. } => Route::Account(*account_id),
        Call::GetChatlistItemsByEntries { account_id, .. } => Route::Account(*account_id),
        Call::ChatlistGetFullChatById { account_id, .. } => Route::Account(*account_id),
        Call::GetBasicChatInfo { account_id, .. } => Route::Account(*account_id),
        Call::AcceptChat { account_id, .. } => Route::Account(*account_id),
        Call::BlockChat { account_id, .. } => Route::Account(*account_id),
        Call::DeleteChat { account_id, .. } => Route::Account(*account_id),
        Call::GetChatEncryptionInfo { account_id, .. } => Route::Account(*account_id),
        Call::GetChatSecurejoinQrCodeSvg { account_id, .. } => Route::Account(*account_id),
        Call::LeaveGroup { account_id, .. } => Route::Account(*account_id),
        Call::RemoveContactFromChat { account_id, .. } => Route::Account(*account_id),
        Call::AddContactToChat { account_id, .. } => Route::Account(*account_id),
        Call::AddDeviceMessage { account_id, .. } => Route::Account(*account_id),
        Call::MarknoticedChat { account_id, .. } => Route::Account(*account_id),
        Call::GetFirstUnreadMessageOfChat { account_id, .. } => Route::Account(*account_id),
        Call::SetChatMuteDuration { account_id, .. } => Route::Account(*account_id),
        Call::IsChatMuted { account_id, .. } => Route::Account(*account_id),
        Call::MarkseenMsgs { account_id, .. } => Route::Account(*account_id),
        Call::MessageListGetMessageIds { account_id, .. } => Route::Account(*account_id),
        Call::MessageGetMessage { account_id, .. } => Route::Account(*account_id),
        Call::MessageGetMessages { account_id, .. } => Route::Account(*account_id),
        Call::MessageGetNotificationInfo { account_id, .. } => Route::Account(*account_id),
        Call::DeleteMessages { account_id, .. } => Route::Account(*account_id),
        Call::GetMessageInfo { account_id, .. } => Route::Account(*account_id),
        Call::ContactsGetContact { account_id, .. } => Route::Account(*account_id),
        Call::ContactsCreateContact { account_id, .. } => Route::Account(*account_id),
        Call::ContactsCreateChatByContactId { account_id, .. } => Route::Account(*account_id),
        Call::ContactsBlock { account_id, .. } => Route::Account(*account_id),
        Call::ContactsUnblock { account_id, .. } => Route::Account(*account_id),
        Call::ContactsGetBlocked { account_id } => Route::Account(*account_id),
        Call::ContactsGetContactIds { account_id, .. } => Route::Account(*account_id),
        Call::ContactsGetContacts { account_id, .. } => Route::Account(*account_id),
        Call::ContactsGetContactsByIds { account_id, .. } => Route::Account(*account_id),
        Call::GetContactEncryptionInfo { account_id, .. } => Route::Account(*account_id),
        Call::ChatGetMedia { account_id, .. } => Route::Account(*account_id),
        Call::ChatGetNeighboringMedia { account_id, .. } => Route::Account(*account_id),
        Call::GetConnectivity { account_id } => Route::Account(*account_id),
        Call::GetConnectivityHtml { account_id } => Route::Account(*account_id),
        Call::WebxdcSendStatusUpdate { account_id, .. } => Route::Account(*account_id),
        Call::WebxdcGetStatusUpdates { account_id, .. } => Route::Account(*account_id),
        Call::MessageGetWebxdcInfo { account_id, .. } => Route::Account(*account_id),
        Call::ForwardMessages { account_id, .. } => Route::Account(*account_id),
        Call::RemoveDraft { account_id, .. } => Route::Account(*account_id),
        Call::GetDraft { account_id, .. } => Route::Account(*account_id),
        Call::MiscSendTextMessage { account_id, .. } => Route::Account(*account_id),
        Call::MiscSendMsg { account_id, .. } => Route::Account(*account_id),
        Call::MiscSetDraft { account_id, .. } => Route::Account(*account_id),
    }
}

/// The message id that stands for a day marker in a flattened message id
/// list.
pub const MSG_ID_DAYMARKER: u32 = 9;

/// One item of a chat's message list as the core reports it.
pub enum ChatItem {
    /// A message, by id.
    Message(u32),
    /// A marker between two days.
    DayMarker,
}

/// What each chat list item becomes in the flattened id list.
pub open spec fn spec_item_id(item: ChatItem) -> u32 {
    match item {
        ChatItem::Message(id) => id,
        ChatItem::DayMarker => MSG_ID_DAYMARKER,
    }
}

/// Flattens a chat's message list to plain ids, one per item in order,
/// with every day marker as the fixed marker id.
pub fn flatten_chat_items(items: &Vec<ChatItem>) -> (r: Vec<u32>)
    ensures
        r@.len() == items@.len(),
        forall|i: int| 0 <= i < items@.len() ==> r@[i] == spec_item_id(#[trigger] items@[i]),
{
    let mut out: Vec<u32> = Vec::new();
    let mut i: usize = 0;
    while i < items.len()
        invariant
            i <= items@.len(),
            out@.len() == i,
            forall|m: int| 0 <= m < i ==> out@[m] == spec_item_id(#[trigger] items@[m]),
        decreases items@.len() - i,
    {
        match &items[i] {
            ChatItem::Message(id) => out.push(*id),
            ChatItem::DayMarker => out.push(MSG_ID_DAYMARKER),
        }
        i = i + 1;
    }
    out
}

/// Builds the command surface's chat list entries from what the core
/// reports per position: the chat id and, where the chat has messages,
/// its newest message id — zero where it has none.
pub fn build_chatlist_entries(raw: &Vec<(u32, Option<u32>)>) -> (r: Vec<ChatListEntry>)
    ensures
        r@.len() == raw@.len(),
        forall|i: int|
            0 <= i < raw@.len() ==> (#[trigger] r@[i]).0 == raw@[i].0 && r@[i].1 == (
            match raw@[i].1 {
                Some(m) => m,
                None => 0,
            }),
    {
    let mut out: Vec<ChatListEntry> = Vec::new();
    let mut i: usize = 0;
    while i < raw.len()
        invariant
            i <= raw@.len(),
            out@.len() == i,
            forall|m: int|
                0 <= m < i ==> (#[trigger] out@[m]).0 == raw@[m].0 && out@[m].1 == (
                match raw@[m].1 {
                    Some(x) => x,
                    None => 0,
                }),
        decreases raw@.len() - i,
    {
        let msg_id = match raw[i].1 {
            Some(m) => m,
            None => 0,
        };
        out.push(ChatListEntry(raw[i].0, msg_id));
        i = i + 1;
    }
    out
}

/// A message's read state, as far as the unread search cares.
#[derive(Clone, Copy, Debug, PartialEq, Eq, Structural)]
pub enum MsgState {
    InFresh,
    InNoticed,
    InSeen,
    /// Any other state (outgoing, undefined): the search passes over it.
    Other,
}

/// The first unread message of a chat, given the chat's messages in order
/// with their states: the oldest fresh or noticed message that comes after
/// the last seen one, if any.
pub open spec fn spec_first_unread(items: Seq<(u32, MsgState)>) -> Option<u32>
    decreases items.len(),
{
    if items.len() == 0 {
        None
    } else {
        let l = items.last();
        match l.1 {
            MsgState::InSeen => None,
            MsgState::InFresh | MsgState::InNoticed => match spec_first_unread(
                items.drop_last(),
            ) {
                Some(x) => Some(x),
                None => Some(l.0),
            },
            MsgState::Other => spec_first_unread(items.drop_last()),
        }
    }
}

/// Finds the first unread message of a chat: the oldest fresh or noticed
/// message younger than every seen one. `None` when everything up to the
/// newest seen message is read or passed over.
pub fn first_unread_message(items: &Vec<(u32, MsgState)>) -> (r: Option<u32>)
    ensures
        r == spec_first_unread(items@),
{
    let mut result: Option<u32> = None;
    let mut i: usize = 0;
    proof {
        assert(items@.take(0) =~= Seq::<(u32, MsgState)>::empty());
    }
    while i < items.len()
        invariant
            i <= items@.len(),
            result == spec_first_unread(items@.take(i as int)),
        decreases items@.len() - i,
    {
        proof {
            assert(items@.take(i + 1 as int).drop_last() =~= items@.take(i as int));
            assert(items@.take(i + 1 as int).last() == items@[i as int]);
        }
        match items[i].1 {
            MsgState::InSeen => {
                result = None;
            },
            MsgState::InFresh | MsgState::InNoticed => {
                if result.is_none() {
                    result = Some(items[i].0);
                }
            },
            MsgState::Other => {},
        }
        i = i + 1;
    }
    proof {
        assert(items@.take(items@.len() as int) =~= items@);
    }
    result
}

/// Normalises a media query's optional alternative types for the core: an
/// absent alternative restricts nothing further, which the core encodes as
/// `Unknown`. Both the gallery listing and the neighbor search hand the
/// core the same triple.
pub fn media_type_filter(
    primary: MessageViewtype,
    alt2: Option<MessageViewtype>,
    alt3: Option<MessageViewtype>,
) -> (r: (MessageViewtype, MessageViewtype, MessageViewtype))
    ensures
        r.0 == primary,
        r.1 == match alt2 {
            Some(v) => v,
            None => MessageViewtype::Unknown,
        },
        r.2 == match alt3 {
            Some(v) => v,
            None => MessageViewtype::Unknown,
        },
{
    let second = match alt2 {
        Some(v) => v,
        None => MessageViewtype::Unknown,
    };
    let third = match alt3 {
        Some(v) => v,
        None => MessageViewtype::Unknown,
    };
    (primary, second, third)
}

/// Normalises a media query's chat scope: absent or zero means any chat of
/// the account.
pub fn media_chat_filter(chat_id: Option<u32>) -> (r: Option<u32>)
    ensures
        r == match chat_id {
            Some(id) => if id == 0 {
                None::<u32>
            } else {
                Some(id)
            },
            None => None::<u32>,
        },
{
    match chat_id {
        Some(id) => if id == 0 {
            None
        } else {
            Some(id)
        },
        None => None,
    }
}

/// What an outgoing message or draft is made of.
#[derive(Clone, Copy, Debug, PartialEq, Eq, Structural)]
pub enum Viewtype {
    Text,
    File,
}

/// An outgoing message or draft, built here and handed to the core to
/// send or store. Coordinates are not part of it: they are floating-point
/// and travel from the caller to the core directly.
pub struct MessageDraft {
    pub viewtype: Viewtype,
    pub text: Option<String>,
    pub file: Option<String>,
    /// The id of the message this one quotes, once resolved.
    pub quote_of: Option<u32>,
}

/// Builds an outgoing message or draft from the send call's arguments:
/// a file attachment makes it a file message, otherwise it is a text
/// message; the quote is not attached yet — it first has to be loaded
/// from the core, see [`attach_quote`].
pub fn build_draft(text: Option<String>, file: Option<String>) -> (r: MessageDraft)
    ensures
        r.viewtype == (if file is Some {
            Viewtype::File
        } else {
            Viewtype::Text
        }),
        r.text == text,
        r.file == file,
        r.quote_of is None,
{
    let viewtype = if file.is_some() {
        Viewtype::File
    } else {
        Viewtype::Text
    };
    MessageDraft { viewtype, text, file, quote_of: None }
}

/// Attaches the quoted message to a draft, given how the core's load of
/// that message went: on success the draft quotes it; on any failure the
/// call is abandoned with `NotFound` and its fixed context text, and the
/// draft is left without a quote.
pub fn attach_quote(
    draft: &mut MessageDraft,
    quoted_message_id: u32,
    load: crate::account::CoreOutcome,
) -> (r: Result<(), Failure>)
    ensures
        final(draft).viewtype == old(draft).viewtype,
        final(draft).text == old(draft).text,
        final(draft).file == old(draft).file,
        match load {
            crate::account::CoreOutcome::Done => r is Ok && final(draft).quote_of == Some(
                quoted_message_id,
            ),
            _ => (r matches Err(f) && f.kind == ErrorKind::NotFound && f.message@
                == "message to quote could not be loaded"@) && final(draft).quote_of == old(
                draft,
            ).quote_of,
        },
{
    match load {
        crate::account::CoreOutcome::Done => {
            draft.quote_of = Some(quoted_message_id);
            Ok(())
        },
        _ => Err(
            Failure::with_message(
                ErrorKind::NotFound,
                "message to quote could not be loaded".to_owned(),
            ),
        ),
    }
}

/// Pairs each fetched id with its own result, in order: a failed fetch
/// becomes that id's error entry with the core's message, never an abort
/// of the whole batch, since the other records stay useful.
pub fn collect_fetch<T>(ids: &Vec<u32>, mut replies: Vec<Result<T, String>>) -> (r: Vec<
    (u32, Result<T, String>),
>)
    requires
        replies@.len() == ids@.len(),
    ensures
        r@.len() == ids@.len(),
        forall|i: int|
            0 <= i < ids@.len() ==> (#[trigger] r@[i]).0 == ids@[i] && r@[i].1 == replies@[i],
{
    let ghost all = replies@;
    let mut out: Vec<(u32, Result<T, String>)> = Vec::new();
    let mut i: usize = 0;
    while i < ids.len()
        invariant
            i <= ids@.len(),
            all.len() == ids@.len(),
            replies@ =~= all.skip(i as int),
            out@.len() == i,
            forall|m: int| 0 <= m < i ==> (#[trigger] out@[m]).0 == ids@[m] && out@[m].1 == all[m],
        decreases ids@.len() - i,
    {
        proof {
            assert(replies@[0] == all[i as int]);
        }
        let reply = replies.remove(0);
        out.push((ids[i], reply));
        proof {
            assert(replies@ =~= all.skip(i + 1 as int));
        }
        i = i + 1;
    }
    out
}

} // verus!
