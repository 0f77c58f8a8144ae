//! The shapes an update's payload decodes into: chats, users and messages.

use vstd::prelude::*;

verus! {

/// The chat a message was sent in.
#[derive(Debug)]
pub struct Chat {
    pub id: i64,
    pub chat_type: String,
    pub first_name: Option<String>,
    pub username: Option<String>,
    pub title: Option<String>,
}

/// A Telegram user.
#[derive(Debug)]
pub struct User {
    pub first_name: String,
    pub id: i64,
    pub is_bot: bool,
    pub language_code: Option<String>,
    pub username: String,
}

impl User {
    /// A copy with the same content.
    pub fn duplicate(&self) -> (r: User)
        ensures
            r.first_name@ == self.first_name@,
            r.id == self.id,
            r.is_bot == self.is_bot,
            option_string_view(r.language_code) == option_string_view(self.language_code),
            r.username@ == self.username@,
    {
        User {
            first_name: self.first_name.clone(),
            id: self.id,
            is_bot: self.is_bot,
            language_code: clone_option_string(&self.language_code),
            username: self.username.clone(),
        }
    }
}

/// The view of an optional text: present with its characters, or absent.
pub open spec fn option_string_view(o: Option<String>) -> Option<Seq<char>> {
    match o {
        Some(s) => Some(s@),
        None => None,
    }
}

/// Copies an optional text.
pub fn clone_option_string(o: &Option<String>) -> (r: Option<String>)
    ensures
        option_string_view(r) == option_string_view(*o),
{
    match o {
        Some(s) => Some(s.clone()),
        None => None,
    }
}

/// One chat message, the payload of a `message` update.
#[derive(Debug)]
pub struct Message {
    pub chat: Chat,
    pub date: i64,
    pub from: User,
    pub message_id: i64,
    pub text: Option<String>,
    pub new_chat_member: Option<User>,
}

impl Message {
    /// A placeholder message addressed to `chat_id`, used when an error must
    /// be reported to a chat whose message could not be decoded.
    pub fn new(chat_id: i64) -> (r: Message)
        ensures
            r.chat.id == chat_id,
            r.chat.chat_type@ == Seq::<char>::empty(),
            r.date == 0,
            r.from.id == chat_id,
            r.from.is_bot == false,
            r.message_id == 0,
            r.text matches Some(t) && t@ == Seq::<char>::empty(),
            r.new_chat_member is None,
    {
        Message {
            chat: Chat {
                id: chat_id,
                chat_type: String::new(),
                first_name: Some(String::new()),
                title: Some(String::new()),
                username: None,
            },
            date: 0,
            from: User {
                first_name: String::new(),
                id: chat_id,
                is_bot: false,
                language_code: Some(String::new()),
                username: String::new(),
            },
            message_id: 0,
            text: Some(String::new()),
            new_chat_member: None,
        }
    }
}

/// One polled update: a message with its server-assigned id.
#[derive(Debug)]
pub struct Update {
    pub message: Message,
    pub update_id: i64,
}

/// A poll result: the transport flag and the batch of updates.
#[derive(Debug)]
pub struct Updates {
    pub ok: bool,
    pub result: Vec<Update>,
}

} // verus!
