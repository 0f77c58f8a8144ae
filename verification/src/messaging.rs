//! Builders for the outbound API requests the handlers make: each send or
//! edit is a method name plus query parameters, and after a successful send
//! the carried message id is refreshed and the offset acknowledged.

use crate::decimal::{dec_int, i64_to_string};
use crate::msg_request::{msg_text_of, MsgRequest};
use crate::msg_type_utils::MsgType;
use vstd::prelude::*;

verus! {

/// The parameter `p` carries `key` and `value`.
pub open spec fn param_is(p: (String, String), key: Seq<char>, value: Seq<char>) -> bool {
    p.0@ == key && p.1@ == value
}

/// Parameters of a plain text message to the carried chat.
pub fn send_msg(req: &MsgRequest) -> (r: Vec<(String, String)>)
    requires
        req.msg is Some,
    ensures
        r@.len() == 2,
        param_is(r@[0], "chat_id"@, dec_int(req.msg->0.chat.id as int)),
        param_is(r@[1], "text"@, msg_text_of(*req)),
{
    let msg = req.get_msg().unwrap();
    let mut params: Vec<(String, String)> = Vec::new();
    params.push(("chat_id".to_owned(), i64_to_string(msg.chat.id)));
    params.push(("text".to_owned(), req.get_msg_text()));
    params
}

/// Parameters of the error reply, addressed to an explicit chat id: the one
/// recovered from a malformed payload.
pub fn send_error_msg(chat_id: i64, req: &MsgRequest) -> (r: Vec<(String, String)>)
    ensures
        r@.len() == 2,
        param_is(r@[0], "chat_id"@, dec_int(chat_id as int)),
        param_is(r@[1], "text"@, msg_text_of(*req)),
{
    let mut params: Vec<(String, String)> = Vec::new();
    params.push(("chat_id".to_owned(), i64_to_string(chat_id)));
    params.push(("text".to_owned(), req.get_msg_text()));
    params
}

/// Parameters of a reply to the carried message.
pub fn send_reply_msg(req: &MsgRequest) -> (r: Vec<(String, String)>)
    requires
        req.msg is Some,
    ensures
        r@.len() == 3,
        param_is(r@[0], "chat_id"@, dec_int(req.msg->0.chat.id as int)),
        param_is(r@[1], "text"@, msg_text_of(*req)),
        param_is(r@[2], "reply_to_message_id"@, dec_int(req.msg->0.message_id as int)),
{
    let msg = req.get_msg().unwrap();
    let mut params: Vec<(String, String)> = Vec::new();
    params.push(("chat_id".to_owned(), i64_to_string(msg.chat.id)));
    params.push(("text".to_owned(), req.get_msg_text()));
    params.push(("reply_to_message_id".to_owned(), i64_to_string(msg.message_id)));
    params
}

/// Parameters of a text message carrying an inline keyboard.
pub fn send_keyboard_msg(keyboard: &str, req: &MsgRequest) -> (r: Vec<(String, String)>)
    requires
        req.msg is Some,
    ensures
        r@.len() == 3,
        param_is(r@[0], "chat_id"@, dec_int(req.msg->0.chat.id as int)),
        param_is(r@[1], "text"@, msg_text_of(*req)),
        param_is(r@[2], "reply_markup"@, keyboard@),
{
    let msg = req.get_msg().unwrap();
    let mut params: Vec<(String, String)> = Vec::new();
    params.push(("chat_id".to_owned(), i64_to_string(msg.chat.id)));
    params.push(("text".to_owned(), req.get_msg_text()));
    params.push(("reply_markup".to_owned(), keyboard.to_owned()));
    params
}

/// Parameters of a keyboard reply to the carried message.
pub fn send_keyboard_reply_msg(keyboard: &str, req: &MsgRequest) -> (r: Vec<(String, String)>)
    requires
        req.msg is Some,
    ensures
        r@.len() == 4,
        param_is(r@[0], "chat_id"@, dec_int(req.msg->0.chat.id as int)),
        param_is(r@[1], "text"@, msg_text_of(*req)),
        param_is(r@[2], "reply_to_message_id"@, dec_int(req.msg->0.message_id as int)),
        param_is(r@[3], "reply_markup"@, keyboard@),
{
    let msg = req.get_msg().unwrap();
    let mut params: Vec<(String, String)> = Vec::new();
    params.push(("chat_id".to_owned(), i64_to_string(msg.chat.id)));
    params.push(("text".to_owned(), req.get_msg_text()));
    params.push(("reply_to_message_id".to_owned(), i64_to_string(msg.message_id)));
    params.push(("reply_markup".to_owned(), keyboard.to_owned()));
    params
}

/// Parameters of a photo message; switches the request to the photo method.
pub fn send_photo_msg(photo_url: &str, photo_title: &str, req: &mut MsgRequest) -> (r: Vec<
    (String, String),
>)
    requires
        old(req).msg is Some,
    ensures
        r@.len() == 3,
        param_is(r@[0], "chat_id"@, dec_int(old(req).msg->0.chat.id as int)),
        param_is(r@[1], "photo"@, photo_url@),
        param_is(r@[2], "caption"@, photo_title@),
        final(req).method == MsgType::SendPhoto,
        final(req).msg == old(req).msg,
        final(req).update_id == old(req).update_id,
{
    let chat_id = req.get_msg().unwrap().chat.id;
    let mut params: Vec<(String, String)> = Vec::new();
    params.push(("chat_id".to_owned(), i64_to_string(chat_id)));
    params.push(("photo".to_owned(), photo_url.to_owned()));
    params.push(("caption".to_owned(), photo_title.to_owned()));
    req.method = MsgType::SendPhoto;
    params
}

/// Parameters of an edit of the carried message's text; switches the
/// request to the edit method.
pub fn edit_msg(req: &mut MsgRequest) -> (r: Vec<(String, String)>)
    requires
        old(req).msg is Some,
    ensures
        r@.len() == 3,
        param_is(r@[0], "chat_id"@, dec_int(old(req).msg->0.chat.id as int)),
        param_is(r@[1], "message_id"@, dec_int(old(req).msg->0.message_id as int)),
        param_is(r@[2], "text"@, msg_text_of(*old(req))),
        final(req).method == MsgType::EditMessageText,
        final(req).msg == old(req).msg,
        final(req).update_id == old(req).update_id,
{
    let msg = req.get_msg().unwrap();
    let mut params: Vec<(String, String)> = Vec::new();
    params.push(("chat_id".to_owned(), i64_to_string(msg.chat.id)));
    params.push(("message_id".to_owned(), i64_to_string(msg.message_id)));
    params.push(("text".to_owned(), req.get_msg_text()));
    req.method = MsgType::EditMessageText;
    params
}

/// Parameters of an edit that also clears the inline keyboard.
pub fn edit_msg_and_remove_keyboard(req: &mut MsgRequest) -> (r: Vec<(String, String)>)
    requires
        old(req).msg is Some,
    ensures
        r@.len() == 4,
        param_is(r@[0], "chat_id"@, dec_int(old(req).msg->0.chat.id as int)),
        param_is(r@[1], "message_id"@, dec_int(old(req).msg->0.message_id as int)),
        param_is(r@[2], "text"@, msg_text_of(*old(req))),
        param_is(r@[3], "reply_markup"@, "{}"@),
        final(req).method == MsgType::EditMessageText,
        final(req).msg == old(req).msg,
        final(req).update_id == old(req).update_id,
{
    let msg = req.get_msg().unwrap();
    let mut params: Vec<(String, String)> = Vec::new();
    params.push(("chat_id".to_owned(), i64_to_string(msg.chat.id)));
    params.push(("message_id".to_owned(), i64_to_string(msg.message_id)));
    params.push(("text".to_owned(), req.get_msg_text()));
    params.push(("reply_markup".to_owned(), "{}".to_owned()));
    req.method = MsgType::EditMessageText;
    params
}

/// Parameters that clear the inline keyboard of the carried message;
/// switches the request to the markup-edit method.
pub fn remove_keyboard(req: &mut MsgRequest) -> (r: Vec<(String, String)>)
    requires
        old(req).msg is Some,
    ensures
        r@.len() == 3,
        param_is(r@[0], "chat_id"@, dec_int(old(req).msg->0.chat.id as int)),
        param_is(r@[1], "message_id"@, dec_int(old(req).msg->0.message_id as int)),
        param_is(r@[2], "reply_markup"@, "{}"@),
        final(req).method == MsgType::EditMessageReplyMarkup,
        final(req).msg == old(req).msg,
        final(req).update_id == old(req).update_id,
{
    let msg = req.get_msg().unwrap();
    let mut params: Vec<(String, String)> = Vec::new();
    params.push(("chat_id".to_owned(), i64_to_string(msg.chat.id)));
    params.push(("message_id".to_owned(), i64_to_string(msg.message_id)));
    params.push(("reply_markup".to_owned(), "{}".to_owned()));
    req.method = MsgType::EditMessageReplyMarkup;
    params
}

/// After a send, refreshes the carried message id from the response (a send
/// returns the sent message's id) and acknowledges the update, advancing
/// the offset past it.
pub fn apply_send_result(offset: &mut i64, req: &mut MsgRequest, new_message_id: Option<i64>)
    requires
        old(req).update_id < i64::MAX,
    ensures
        *final(offset) == old(req).update_id + 1,
        final(req).update_id == old(req).update_id,
        final(req).method == old(req).method,
        match (old(req).msg, new_message_id) {
            (Some(m), Some(id)) => final(req).msg matches Some(m2) && m2.message_id == id
                && m2.chat == m.chat && m2.from == m.from && m2.text == m.text && m2.date == m.date
                && m2.new_chat_member == m.new_chat_member,
            _ => final(req).msg == old(req).msg,
        },
{
    if let Some(id) = new_message_id {
        if let Some(message) = req.msg.as_mut() {
            message.message_id = id;
        }
    }
    *offset = req.update_id + 1;
}

} // verus!
