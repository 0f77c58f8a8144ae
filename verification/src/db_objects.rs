//! The records the repository stores: users, chats, memberships and events.

use vstd::prelude::*;

verus! {

/// A known user, keyed by username.
#[derive(Debug, Clone)]
pub struct User {
    pub username: String,
    pub first_name: Option<String>,
    pub birthdate: Option<String>,
    pub language_code: Option<String>,
}

impl User {
    pub fn new(
        username: String,
        first_name: Option<String>,
        birthdate: Option<String>,
        language_code: Option<String>,
    ) -> (r: User)
        ensures
            r.username == username,
            r.first_name == first_name,
            r.birthdate == birthdate,
            r.language_code == language_code,
    {
        User { username, first_name, birthdate, language_code }
    }
}

/// A chat the bot is a member of, with its preferred language.
#[derive(Debug, Clone)]
pub struct Chat {
    pub id: i64,
    pub title: String,
    pub language_code: String,
}

impl Chat {
    pub fn new(id: i64, title: String, language_code: String) -> (r: Chat)
        ensures
            r.id == id,
            r.title == title,
            r.language_code == language_code,
    {
        Chat { id, title, language_code }
    }
}

/// A membership of a user in a group chat.
#[derive(Debug, Clone, PartialEq, Eq, Structural)]
pub struct Members {
    pub group_id: i64,
    pub user_id: i64,
}

/// A scheduled event in a group chat.
#[derive(Debug, Clone)]
pub struct Event {
    pub group_id: i64,
    pub title: String,
    pub location: String,
    pub date: String,
    pub description: String,
}

impl Event {
    pub fn new(group_id: i64, title: String, date: String, location: String, description: String) -> (r:
        Event)
        ensures
            r.group_id == group_id,
            r.title == title,
            r.date == date,
            r.location == location,
            r.description == description,
    {
        Event { group_id, title, location, date, description }
    }
}

} // verus!
