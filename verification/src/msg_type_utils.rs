//! The Telegram API methods the bot calls, and their wire names.

use vstd::prelude::*;

verus! {

/// An outbound Telegram API method.
#[derive(Debug, Clone, Copy, PartialEq, Eq, Structural)]
pub enum MsgType {
    GetMe,
    GetUpdates,
    SendMessage,
    SendPhoto,
    EditMessageText,
    EditMessageReplyMarkup,
    GetChatAdministrators,
    BanChatMember,
}

/// The wire name of each API method.
pub open spec fn msg_type_str(t: MsgType) -> Seq<char> {
    match t {
        MsgType::GetMe => "getMe"@,
        MsgType::GetUpdates => "getUpdates"@,
        MsgType::SendMessage => "sendMessage"@,
        MsgType::SendPhoto => "sendPhoto"@,
        MsgType::EditMessageText => "editMessageText"@,
        MsgType::EditMessageReplyMarkup => "editMessageReplyMarkup"@,
        MsgType::GetChatAdministrators => "getChatAdministrators"@,
        MsgType::BanChatMember => "banChatMember"@,
    }
}

/// Maps an API method to the name used in the request URL.
pub fn msg_type_to_str(t: &MsgType) -> (r: &'static str)
    ensures
        r@ == msg_type_str(*t),
{
    match t {
        MsgType::GetMe => "getMe",
        MsgType::GetUpdates => "getUpdates",
        MsgType::SendMessage => "sendMessage",
        MsgType::SendPhoto => "sendPhoto",
        MsgType::EditMessageText => "editMessageText",
        MsgType::EditMessageReplyMarkup => "editMessageReplyMarkup",
        MsgType::GetChatAdministrators => "getChatAdministrators",
        MsgType::BanChatMember => "banChatMember",
    }
}

} // verus!
