//! The state carried through the handling of one update: the update id, the
//! API method the reply will use, and the decoded message, whose text the
//! handlers rewrite before each send.

use crate::msg_type_utils::MsgType;
use crate::tg_objects::Message;
use vstd::prelude::*;

verus! {

/// The request state for one update.
#[derive(Debug)]
pub struct MsgRequest {
    pub update_id: i64,
    pub method: MsgType,
    pub msg: Option<Message>,
}

/// The message text a reply is built from: the text of the carried message,
/// or empty when there is none.
pub open spec fn msg_text_of(r: MsgRequest) -> Seq<char> {
    match r.msg {
        Some(m) => match m.text {
            Some(t) => t@,
            None => Seq::empty(),
        },
        None => Seq::empty(),
    }
}

impl MsgRequest {
    pub fn new(update_id: i64, method: MsgType, msg: Option<Message>) -> (r: MsgRequest)
        ensures
            r.update_id == update_id,
            r.method == method,
            r.msg == msg,
    {
        MsgRequest { update_id, method, msg }
    }

    /// The carried message, if the update decoded to one.
    pub fn get_msg(&self) -> (r: Option<&Message>)
        ensures
            match r {
                Some(m) => self.msg == Some(*m),
                None => self.msg is None,
            },
    {
        match &self.msg {
            Some(m) => Some(m),
            None => None,
        }
    }

    /// The message text, or empty when the message carries none.
    pub fn get_msg_text(&self) -> (r: String)
        ensures
            r@ == msg_text_of(*self),
    {
        match &self.msg {
            Some(m) => match &m.text {
                Some(t) => t.clone(),
                None => String::new(),
            },
            None => String::new(),
        }
    }

    /// Rewrites the message text the next send will carry; everything else
    /// is kept.
    pub fn set_msg_text(&mut self, value: &String)
        ensures
            match old(self).msg {
                Some(m) => final(self).msg matches Some(m2) && m2.text matches Some(t) && t@
                    == value@ && m2.chat == m.chat && m2.from == m.from && m2.message_id
                    == m.message_id && m2.date == m.date && m2.new_chat_member
                    == m.new_chat_member,
                None => final(self).msg is None,
            },
            final(self).update_id == old(self).update_id,
            final(self).method == old(self).method,
    {
        if let Some(msg) = self.msg.as_mut() {
            msg.text = Some(value.clone());
        }
    }
}

} // verus!
