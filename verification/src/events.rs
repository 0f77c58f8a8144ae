//! The daily notification passes' message rendering: birthday wishes, event
//! reminders and greetings, each a template with its placeholders filled in,
//! plus the request parameters that deliver them.

use crate::db_objects::{Event, User};
use crate::decimal::{dec_int, i64_to_string};
use crate::messaging::param_is;
use crate::msg_type_utils::MsgType;
use crate::template::{replace_all, replace_seq};
use crate::text::chars_of;
use crate::validations::{date_year, digit_val, is_digit, valid_date_str};
use vstd::prelude::*;

verus! {

/// The reminder text of an event: the template with title, date, location
/// and description substituted, in that order.
pub open spec fn event_message_spec(template: Seq<char>, e: Event) -> Seq<char> {
    replace_seq(
        replace_seq(
            replace_seq(replace_seq(template, "{title}"@, e.title@), "{date}"@, e.date@),
            "{location}"@,
            e.location@,
        ),
        "{description}"@,
        e.description@,
    )
}

/// Renders the reminder text of one event.
pub fn render_event_message(template: &str, event: &Event) -> (r: String)
    ensures
        r@ == event_message_spec(template@, *event),
{
    let m1 = replace_all(template, "{title}", event.title.as_str());
    let m2 = replace_all(m1.as_str(), "{date}", event.date.as_str());
    let m3 = replace_all(m2.as_str(), "{location}", event.location.as_str());
    replace_all(m3.as_str(), "{description}", event.description.as_str())
}

/// The name a birthday wish greets: the first name, or a placeholder when
/// none is stored.
pub open spec fn birthday_name_view(u: User) -> Seq<char> {
    match u.first_name {
        Some(f) => f@,
        None => "unknown :("@,
    }
}

/// The birthday text: the template with name, username and age substituted,
/// in that order.
pub open spec fn birthday_message_spec(template: Seq<char>, u: User, age: int) -> Seq<char> {
    replace_seq(
        replace_seq(
            replace_seq(template, "{first_name}"@, birthday_name_view(u)),
            "{username}"@,
            u.username@,
        ),
        "{age}"@,
        dec_int(age),
    )
}

/// Renders the birthday wish for one user.
pub fn render_birthday_message(template: &str, user: &User, age: i64) -> (r: String)
    ensures
        r@ == birthday_message_spec(template@, *user, age as int),
{
    let name = match &user.first_name {
        Some(f) => f.clone(),
        None => "unknown :(".to_owned(),
    };
    let m1 = replace_all(template, "{first_name}", name.as_str());
    let m2 = replace_all(m1.as_str(), "{username}", user.username.as_str());
    replace_all(m2.as_str(), "{age}", i64_to_string(age).as_str())
}

/// The year named by a valid `DD.MM.YYYY` birthdate.
pub fn birth_year_of(date_str: &str) -> (r: u32)
    requires
        valid_date_str(date_str@),
    ensures
        r == date_year(date_str@),
        r <= 9999,
{
    let s = chars_of(date_str);
    let y0 = digit_of(s[6]);
    let y1 = digit_of(s[7]);
    let y2 = digit_of(s[8]);
    let y3 = digit_of(s[9]);
    y0 * 1000 + y1 * 100 + y2 * 10 + y3
}

fn digit_of(c: char) -> (r: u32)
    requires
        is_digit(c),
    ensures
        r == digit_val(c),
        r <= 9,
{
    c as u32 - '0' as u32
}

/// The age a birthday wish reports: the difference of the year numbers, as
/// the current year minus the stored birth year.
pub fn compute_age(today_year: i32, birth_year: u32) -> (r: i64)
    requires
        birth_year <= 9999,
    ensures
        r == today_year as int - birth_year as int,
{
    today_year as i64 - birth_year as i64
}

/// The request that delivers one event reminder to its chat.
pub fn reminde_events(event: &Event, template: &str) -> (r: (MsgType, Vec<(String, String)>))
    ensures
        r.0 == MsgType::SendMessage,
        r.1@.len() == 2,
        param_is(r.1@[0], "chat_id"@, dec_int(event.group_id as int)),
        param_is(r.1@[1], "text"@, event_message_spec(template@, *event)),
{
    let mut params: Vec<(String, String)> = Vec::new();
    params.push(("chat_id".to_owned(), i64_to_string(event.group_id)));
    params.push(("text".to_owned(), render_event_message(template, event)));
    (MsgType::SendMessage, params)
}

/// The request that delivers one birthday wish to one of the user's chats.
pub fn send_happy_birthday(user: &User, chat_id: i64, template: &str, age: i64) -> (r: (
    MsgType,
    Vec<(String, String)>,
))
    ensures
        r.0 == MsgType::SendMessage,
        r.1@.len() == 2,
        param_is(r.1@[0], "chat_id"@, dec_int(chat_id as int)),
        param_is(r.1@[1], "text"@, birthday_message_spec(template@, *user, age as int)),
{
    let mut params: Vec<(String, String)> = Vec::new();
    params.push(("chat_id".to_owned(), i64_to_string(chat_id)));
    params.push(("text".to_owned(), render_birthday_message(template, user, age)));
    (MsgType::SendMessage, params)
}

/// The request that delivers the daily greeting to one chat.
pub fn send_daily_greeting(chat_id: i64, greeting: &str) -> (r: (MsgType, Vec<(String, String)>))
    ensures
        r.0 == MsgType::SendMessage,
        r.1@.len() == 2,
        param_is(r.1@[0], "chat_id"@, dec_int(chat_id as int)),
        param_is(r.1@[1], "text"@, greeting@),
{
    let mut params: Vec<(String, String)> = Vec::new();
    params.push(("chat_id".to_owned(), i64_to_string(chat_id)));
    params.push(("text".to_owned(), greeting.to_owned()));
    (MsgType::SendMessage, params)
}

} // verus!
