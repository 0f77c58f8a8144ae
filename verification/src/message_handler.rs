//! The update dispatcher: structural validation of a raw update, the state
//! machine that classifies it (callback query, membership event, command,
//! plain text, malformed), and the offset acknowledgement that makes
//! delivery to handlers at-most-once.

use crate::callback_queries::{handle_callback_query, lang_code_of, zodiac_of, CallbackPlan};
use crate::command_utils::{command_of, command_str_to_type, tokenize, tokenize_chars, tokenize_from,
    CommandType};
use crate::json::{find_chat_id, find_chat_id_spec, json_get, JsonValue};
use crate::text::{before_at, chars_of, cut_at_sign, lower_of, string_from_chars, starts_with,
    trim_chars, trim_spec};
use crate::tg_objects::{option_string_view, Chat, Message, User};
use vstd::prelude::*;

verus! {

// --- the field shapes structural validation demands ---

/// The field is present and an integer.
pub open spec fn int_field_ok(v: JsonValue, key: Seq<char>) -> bool {
    json_get(v, key) matches Some(JsonValue::Int(_))
}

/// The integer a field carries (meaningful when `int_field_ok` holds).
pub open spec fn int_field_of(v: JsonValue, key: Seq<char>) -> i64 {
    match json_get(v, key) {
        Some(JsonValue::Int(n)) => n,
        _ => 0,
    }
}

/// The field is present and a text.
pub open spec fn text_field_ok(v: JsonValue, key: Seq<char>) -> bool {
    json_get(v, key) matches Some(JsonValue::Text(_))
}

/// The text a field carries (meaningful when `text_field_ok` holds).
pub open spec fn text_field_of(v: JsonValue, key: Seq<char>) -> Seq<char> {
    match json_get(v, key) {
        Some(JsonValue::Text(t)) => t@,
        _ => Seq::empty(),
    }
}

/// The field is present and a boolean.
pub open spec fn bool_field_ok(v: JsonValue, key: Seq<char>) -> bool {
    json_get(v, key) matches Some(JsonValue::Bool(_))
}

/// The boolean a field carries (meaningful when `bool_field_ok` holds).
pub open spec fn bool_field_of(v: JsonValue, key: Seq<char>) -> bool {
    match json_get(v, key) {
        Some(JsonValue::Bool(b)) => b,
        _ => false,
    }
}

/// An optional text field: absent, null, or a text.
pub open spec fn opt_text_field_ok(v: JsonValue, key: Seq<char>) -> bool {
    match json_get(v, key) {
        None => true,
        Some(JsonValue::Null) => true,
        Some(JsonValue::Text(_)) => true,
        Some(_) => false,
    }
}

/// The content of an optional text field; absent and null are both `None`.
pub open spec fn opt_text_field_of(v: JsonValue, key: Seq<char>) -> Option<Seq<char>> {
    match json_get(v, key) {
        Some(JsonValue::Text(t)) => Some(t@),
        _ => None,
    }
}

/// The shape a `from` or `new_chat_member` payload must have.
pub open spec fn user_shape_ok(v: JsonValue) -> bool {
    &&& text_field_ok(v, "first_name"@)
    &&& int_field_ok(v, "id"@)
    &&& bool_field_ok(v, "is_bot"@)
    &&& opt_text_field_ok(v, "language_code"@)
    &&& text_field_ok(v, "username"@)
}

/// The decoded user carries exactly the payload's fields.
pub open spec fn user_matches(u: User, v: JsonValue) -> bool {
    &&& u.first_name@ == text_field_of(v, "first_name"@)
    &&& u.id == int_field_of(v, "id"@)
    &&& u.is_bot == bool_field_of(v, "is_bot"@)
    &&& option_string_view(u.language_code) == opt_text_field_of(v, "language_code"@)
    &&& u.username@ == text_field_of(v, "username"@)
}

/// The shape a `chat` payload must have.
pub open spec fn chat_shape_ok(v: JsonValue) -> bool {
    &&& int_field_ok(v, "id"@)
    &&& text_field_ok(v, "type"@)
    &&& opt_text_field_ok(v, "first_name"@)
    &&& opt_text_field_ok(v, "username"@)
    &&& opt_text_field_ok(v, "title"@)
}

/// The decoded chat carries exactly the payload's fields.
pub open spec fn chat_matches(c: Chat, v: JsonValue) -> bool {
    &&& c.id == int_field_of(v, "id"@)
    &&& c.chat_type@ == text_field_of(v, "type"@)
    &&& option_string_view(c.first_name) == opt_text_field_of(v, "first_name"@)
    &&& option_string_view(c.username) == opt_text_field_of(v, "username"@)
    &&& option_string_view(c.title) == opt_text_field_of(v, "title"@)
}

/// The shape a message payload must have to be handled at all; anything
/// else is recovered through the error path.
pub open spec fn message_shape_ok(v: JsonValue) -> bool {
    &&& match json_get(v, "chat"@) {
        Some(c) => chat_shape_ok(c),
        None => false,
    }
    &&& int_field_ok(v, "date"@)
    &&& match json_get(v, "from"@) {
        Some(u) => user_shape_ok(u),
        None => false,
    }
    &&& int_field_ok(v, "message_id"@)
    &&& opt_text_field_ok(v, "text"@)
    &&& match json_get(v, "new_chat_member"@) {
        None => true,
        Some(JsonValue::Null) => true,
        Some(u) => user_shape_ok(u),
    }
}

/// The decoded message carries exactly the payload's fields.
pub open spec fn message_matches(m: Message, v: JsonValue) -> bool {
    &&& match json_get(v, "chat"@) {
        Some(c) => chat_matches(m.chat, c),
        None => false,
    }
    &&& m.date == int_field_of(v, "date"@)
    &&& match json_get(v, "from"@) {
        Some(u) => user_matches(m.from, u),
        None => false,
    }
    &&& m.message_id == int_field_of(v, "message_id"@)
    &&& option_string_view(m.text) == opt_text_field_of(v, "text"@)
    &&& match json_get(v, "new_chat_member"@) {
        None => m.new_chat_member is None,
        Some(JsonValue::Null) => m.new_chat_member is None,
        Some(u) => m.new_chat_member matches Some(mu) && user_matches(mu, u),
    }
}

fn parse_user(v: &JsonValue) -> (r: Option<User>)
    ensures
        match r {
            Some(u) => user_shape_ok(*v) && user_matches(u, *v),
            None => !user_shape_ok(*v),
        },
{
    let first_name = match v.get("first_name") {
        Some(x) => match x.as_text() {
            Some(t) => t.clone(),
            None => {
                return None;
            },
        },
        None => {
            return None;
        },
    };
    let id = match v.get("id") {
        Some(x) => match x.as_i64() {
            Some(n) => n,
            None => {
                return None;
            },
        },
        None => {
            return None;
        },
    };
    let is_bot = match v.get("is_bot") {
        Some(x) => match x {
            JsonValue::Bool(b) => *b,
            _ => {
                return None;
            },
        },
        None => {
            return None;
        },
    };
    let language_code = match v.get("language_code") {
        None => None,
        Some(x) => match x {
            JsonValue::Null => None,
            JsonValue::Text(t) => Some(t.clone()),
            _ => {
                return None;
            },
        },
    };
    let username = match v.get("username") {
        Some(x) => match x.as_text() {
            Some(t) => t.clone(),
            None => {
                return None;
            },
        },
        None => {
            return None;
        },
    };
    Some(User { first_name, id, is_bot, language_code, username })
}

fn parse_chat(v: &JsonValue) -> (r: Option<Chat>)
    ensures
        match r {
            Some(c) => chat_shape_ok(*v) && chat_matches(c, *v),
            None => !chat_shape_ok(*v),
        },
{
    let id = match v.get("id") {
        Some(x) => match x.as_i64() {
            Some(n) => n,
            None => {
                return None;
            },
        },
        None => {
            return None;
        },
    };
    let chat_type = match v.get("type") {
        Some(x) => match x.as_text() {
            Some(t) => t.clone(),
            None => {
                return None;
            },
        },
        None => {
            return None;
        },
    };
    let first_name = match v.get("first_name") {
        None => None,
        Some(x) => match x {
            JsonValue::Null => None,
            JsonValue::Text(t) => Some(t.clone()),
            _ => {
                return None;
            },
        },
    };
    let username = match v.get("username") {
        None => None,
        Some(x) => match x {
            JsonValue::Null => None,
            JsonValue::Text(t) => Some(t.clone()),
            _ => {
                return None;
            },
        },
    };
    let title = match v.get("title") {
        None => None,
        Some(x) => match x {
            JsonValue::Null => None,
            JsonValue::Text(t) => Some(t.clone()),
            _ => {
                return None;
            },
        },
    };
    Some(Chat { id, chat_type, first_name, username, title })
}

/// Decodes a message payload, accepting exactly the shapes the handlers can
/// work with.
pub fn parse_message(v: &JsonValue) -> (r: Option<Message>)
    ensures
        match r {
            Some(m) => message_shape_ok(*v) && message_matches(m, *v),
            None => !message_shape_ok(*v),
        },
{
    let chat = match v.get("chat") {
        Some(c) => match parse_chat(c) {
            Some(chat) => chat,
            None => {
                return None;
            },
        },
        None => {
            return None;
        },
    };
    let date = match v.get("date") {
        Some(x) => match x.as_i64() {
            Some(n) => n,
            None => {
                return None;
            },
        },
        None => {
            return None;
        },
    };
    let from = match v.get("from") {
        Some(u) => match parse_user(u) {
            Some(user) => user,
            None => {
                return None;
            },
        },
        None => {
            return None;
        },
    };
    let message_id = match v.get("message_id") {
        Some(x) => match x.as_i64() {
            Some(n) => n,
            None => {
                return None;
            },
        },
        None => {
            return None;
        },
    };
    let text = match v.get("text") {
        None => None,
        Some(x) => match x {
            JsonValue::Null => None,
            JsonValue::Text(t) => Some(t.clone()),
            _ => {
                return None;
            },
        },
    };
    let new_chat_member = match v.get("new_chat_member") {
        None => None,
        Some(x) => match x {
            JsonValue::Null => None,
            _ => match parse_user(x) {
                Some(u) => Some(u),
                None => {
                    return None;
                },
            },
        },
    };
    Some(Message { chat, date, from, message_id, text, new_chat_member })
}

/// How a message payload enters handling: taken, skipped, or recovered as
/// malformed.
#[derive(Debug)]
pub enum MessageIntake {
    /// Not an object, or a photo message: nothing to handle.
    Skipped,
    /// Structurally invalid: report the error to the best-effort chat id,
    /// then acknowledge the update anyway.
    Malformed { chat_id: Option<i64> },
    /// Decoded; handling proceeds on the message.
    Accepted { msg: Message },
}

/// Validates a message payload, recovering a chat id by depth-first search
/// when validation fails, so the error reply can still be addressed.
pub fn create_msg_request(message: &JsonValue) -> (r: MessageIntake)
    ensures
        match r {
            MessageIntake::Skipped => !(*message is Object) || json_get(*message, "photo"@)
                is Some,
            MessageIntake::Malformed { chat_id } => {
                &&& *message is Object
                &&& json_get(*message, "photo"@) is None
                &&& !message_shape_ok(*message)
                &&& chat_id == find_chat_id_spec(*message)
            },
            MessageIntake::Accepted { msg } => {
                &&& *message is Object
                &&& json_get(*message, "photo"@) is None
                &&& message_shape_ok(*message)
                &&& message_matches(msg, *message)
            },
        },
{
    if !message.is_object() {
        return MessageIntake::Skipped;
    }
    if message.get("photo").is_some() {
        return MessageIntake::Skipped;
    }
    match parse_message(message) {
        Some(msg) => MessageIntake::Accepted { msg },
        None => MessageIntake::Malformed { chat_id: find_chat_id(message) },
    }
}

// --- classification of a whole update ---

/// The data string of a callback query; absent or non-text data reads as
/// empty.
pub open spec fn callback_data_of(cq: JsonValue) -> Seq<char> {
    match json_get(cq, "data"@) {
        Some(JsonValue::Text(t)) => t@,
        _ => Seq::empty(),
    }
}

/// The argument tokens of a command text (everything after the slash).
pub open spec fn planned_tokens(text: Seq<char>) -> Seq<Seq<char>> {
    tokenize(text.skip(1))
}

/// The command a slash text routes to: the first token, cut at `'@'`,
/// trimmed, case-folded and looked up; no token means no command.
pub open spec fn planned_command(text: Seq<char>) -> Option<CommandType> {
    if planned_tokens(text).len() == 0 {
        None
    } else {
        command_of(lower_of(trim_spec(before_at(planned_tokens(text)[0]))))
    }
}

/// The arguments handed to the routed command: every token but the first.
pub open spec fn planned_args(text: Seq<char>) -> Seq<Seq<char>> {
    if planned_tokens(text).len() == 0 {
        Seq::empty()
    } else {
        planned_tokens(text).drop_first()
    }
}

/// What one update asks the process to do.  Whatever the variant, the
/// update is acknowledged afterwards.
#[derive(Debug)]
pub enum UpdatePlan {
    /// Nothing to handle: no payload, a photo, or a callback query without
    /// a message.
    Skip,
    /// A structurally invalid payload: send the error reply to the chat, if
    /// one was recovered, then acknowledge.
    ReportMalformed { chat_id: Option<i64> },
    /// A callback query with its decoded message and routed action.
    Callback { msg: Message, action: CallbackPlan },
    /// A member joined: greet, or install the bot when it joined itself.
    NewMember { msg: Message },
    /// A `/` with no command name after it (bare, or nothing the tokenizer
    /// keeps): route to the no-command reply.
    NoCommand { msg: Message },
    /// A slash command with its routed type and argument list.
    Command { msg: Message, command: Option<CommandType>, args: Vec<String> },
    /// Ordinary text: no action.
    PlainText { msg: Message },
}

/// The plan fits the update: each variant's guard names the exact shape of
/// payload it is returned for, and its content is pinned to the payload.
pub open spec fn plan_matches(u: JsonValue, r: UpdatePlan) -> bool {
    match r {
            UpdatePlan::Skip => match json_get(u, "callback_query"@) {
                Some(cq) => match json_get(cq, "message"@) {
                    Some(m) => !(m is Object) || json_get(m, "photo"@) is Some,
                    None => true,
                },
                None => match json_get(u, "message"@) {
                    Some(m) => !(m is Object) || json_get(m, "photo"@) is Some,
                    None => true,
                },
            },
            UpdatePlan::ReportMalformed { chat_id } => exists|m: JsonValue|
                {
                    &&& #[trigger] payload_is(u, m)
                    &&& m is Object
                    &&& json_get(m, "photo"@) is None
                    &&& !message_shape_ok(m)
                    &&& chat_id == find_chat_id_spec(m)
                },
            UpdatePlan::Callback { msg, action } => match json_get(u, "callback_query"@) {
                Some(cq) => match json_get(cq, "message"@) {
                    Some(m) => {
                        &&& message_shape_ok(m)
                        &&& message_matches(msg, m)
                        &&& callback_action_is(action, callback_data_of(cq))
                    },
                    None => false,
                },
                None => false,
            },
            UpdatePlan::NewMember { msg } => accepted_message(u, msg)
                && msg.new_chat_member is Some,
            UpdatePlan::NoCommand { msg } => {
                &&& accepted_message(u, msg)
                &&& msg.new_chat_member is None
                &&& msg_text_of_message(msg).len() >= 1
                &&& msg_text_of_message(msg)[0] == '/'
                &&& planned_tokens(msg_text_of_message(msg)).len() == 0
            },
            UpdatePlan::Command { msg, command, args } => {
                &&& accepted_message(u, msg)
                &&& msg.new_chat_member is None
                &&& msg_text_of_message(msg).len() > 1
                &&& msg_text_of_message(msg)[0] == '/'
                &&& planned_tokens(msg_text_of_message(msg)).len() > 0
                &&& command == planned_command(msg_text_of_message(msg))
                &&& args@.map_values(|t: String| t@) == planned_args(msg_text_of_message(msg))
            },
            UpdatePlan::PlainText { msg } => {
                &&& accepted_message(u, msg)
                &&& msg.new_chat_member is None
                &&& (msg_text_of_message(msg).len() == 0 || msg_text_of_message(msg)[0] != '/')
            },
    }
}

/// Classifies one raw update.  Every branch of the update state machine is
/// covered: callback queries, membership events, commands (bare, known,
/// unknown), plain text, photo and malformed payloads.
pub fn plan_update(u: &JsonValue) -> (r: UpdatePlan)
    ensures
        plan_matches(*u, r),
{
    let cq_opt = u.get("callback_query");
    match cq_opt {
        Some(cq) => {
            match cq.get("message") {
                None => UpdatePlan::Skip,
                Some(m) => match create_msg_request(m) {
                    MessageIntake::Skipped => UpdatePlan::Skip,
                    MessageIntake::Malformed { chat_id } => {
                        proof {
                            assert(payload_is(*u, *m));
                        }
                        UpdatePlan::ReportMalformed { chat_id }
                    },
                    MessageIntake::Accepted { msg } => {
                        let data = match cq.get("data") {
                            Some(x) => match x.as_text() {
                                Some(t) => t.clone(),
                                None => String::new(),
                            },
                            None => String::new(),
                        };
                        let action = handle_callback_query(data.as_str());
                        UpdatePlan::Callback { msg, action }
                    },
                },
            }
        },
        None => match u.get("message") {
            None => UpdatePlan::Skip,
            Some(m) => match create_msg_request(m) {
                MessageIntake::Skipped => UpdatePlan::Skip,
                MessageIntake::Malformed { chat_id } => {
                    proof {
                        assert(payload_is(*u, *m));
                    }
                    UpdatePlan::ReportMalformed { chat_id }
                },
                MessageIntake::Accepted { msg } => plan_text_message(msg),
            },
        },
    }
}

/// The message payload an update carries: under its callback query when it
/// has one, directly otherwise.
pub open spec fn payload_is(u: JsonValue, m: JsonValue) -> bool {
    match json_get(u, "callback_query"@) {
        Some(cq) => json_get(cq, "message"@) == Some(m),
        None => json_get(u, "message"@) == Some(m),
    }
}

/// The update carries a valid message payload decoded as `msg`.
pub open spec fn accepted_message(u: JsonValue, msg: Message) -> bool {
    exists|m: JsonValue|
        {
            &&& #[trigger] payload_is(u, m)
            &&& message_shape_ok(m)
            &&& message_matches(msg, m)
        }
}

/// The routed action fits the callback data string.
pub open spec fn callback_action_is(action: CallbackPlan, data: Seq<char>) -> bool {
    if starts_with(data, "lang_"@) {
        action matches CallbackPlan::SetLanguage { code } && code@ == lang_code_of(data)
    } else if starts_with(data, "zodiac_"@) {
        action matches CallbackPlan::Horoscope { sign } && sign@ == zodiac_of(data)
    } else {
        action is NoOp
    }
}

/// The text of a decoded message; a missing text reads as empty.
pub open spec fn msg_text_of_message(m: Message) -> Seq<char> {
    match m.text {
        Some(t) => t@,
        None => Seq::empty(),
    }
}

fn plan_text_message(msg: Message) -> (r: UpdatePlan)
    ensures
        match r {
            UpdatePlan::NewMember { msg: m2 } => m2 == msg && msg.new_chat_member is Some,
            UpdatePlan::NoCommand { msg: m2 } => {
                &&& m2 == msg
                &&& msg.new_chat_member is None
                &&& msg_text_of_message(msg).len() >= 1
                &&& msg_text_of_message(msg)[0] == '/'
                &&& planned_tokens(msg_text_of_message(msg)).len() == 0
            },
            UpdatePlan::Command { msg: m2, command, args } => {
                &&& m2 == msg
                &&& msg.new_chat_member is None
                &&& msg_text_of_message(msg).len() > 1
                &&& msg_text_of_message(msg)[0] == '/'
                &&& planned_tokens(msg_text_of_message(msg)).len() > 0
                &&& command == planned_command(msg_text_of_message(msg))
                &&& args@.map_values(|t: String| t@) == planned_args(msg_text_of_message(msg))
            },
            UpdatePlan::PlainText { msg: m2 } => {
                &&& m2 == msg
                &&& msg.new_chat_member is None
                &&& (msg_text_of_message(msg).len() == 0 || msg_text_of_message(msg)[0] != '/')
            },
            _ => false,
        },
{
    if msg.new_chat_member.is_some() {
        return UpdatePlan::NewMember { msg };
    }
    let text = match &msg.text {
        Some(t) => t.clone(),
        None => String::new(),
    };
    let tv = chars_of(text.as_str());
    let ghost tvq = tv@;
    if tv.len() == 0 {
        return UpdatePlan::PlainText { msg };
    }
    if tv[0] != '/' {
        return UpdatePlan::PlainText { msg };
    }
    if tv.len() == 1 {
        proof {
            assert(tvq.skip(1) =~= Seq::<char>::empty());
            assert(tokenize_from(tvq.skip(1), 0, false, Seq::empty(), Seq::empty())
                =~= Seq::<Seq<char>>::empty());
        }
        return UpdatePlan::NoCommand { msg };
    }
    let mut tail = tv;
    tail.remove(0);
    proof {
        assert(tail@ =~= tvq.skip(1));
    }
    let mut args = tokenize_chars(&tail);
    if args.len() == 0 {
        proof {
            assert(planned_tokens(msg_text_of_message(msg)).len() == 0);
        }
        return UpdatePlan::NoCommand { msg };
    }
    let ghost full = args@.map_values(|t: String| t@);
    let command_str = args.remove(0);
    proof {
        assert(args@.map_values(|t: String| t@) =~= full.drop_first());
        assert(command_str@ == full[0]);
    }
    let cs = chars_of(command_str.as_str());
    let cut = cut_at_sign(&cs);
    let trimmed = trim_chars(&cut);
    let name = string_from_chars(&trimmed);
    let command = command_str_to_type(name.as_str());
    UpdatePlan::Command { msg, command, args }
}

/// The server-assigned id of an update, when it carries one.
pub open spec fn update_id_spec(u: JsonValue) -> Option<i64> {
    match json_get(u, "update_id"@) {
        Some(JsonValue::Int(n)) => Some(n),
        _ => None,
    }
}

/// Reads the update's id, by which it is acknowledged.
pub fn update_id_of(u: &JsonValue) -> (r: Option<i64>)
    ensures
        r == update_id_spec(*u),
{
    match u.get("update_id") {
        Some(x) => x.as_i64(),
        None => None,
    }
}

/// Plans a whole poll batch: each update is classified and paired with the
/// id it will be acknowledged under, in arrival order.
pub fn handle_message(response_results: &Vec<JsonValue>) -> (r: Vec<(UpdatePlan, Option<i64>)>)
    ensures
        r@.len() == response_results@.len(),
        forall|k: int|
            0 <= k < r@.len() ==> plan_matches(response_results@[k], (#[trigger] r@[k]).0)
                && r@[k].1 == update_id_spec(response_results@[k]),
{
    let mut plans: Vec<(UpdatePlan, Option<i64>)> = Vec::new();
    let mut i: usize = 0;
    while i < response_results.len()
        invariant
            0 <= i <= response_results@.len(),
            plans@.len() == i,
            forall|k: int|
                0 <= k < i ==> plan_matches(response_results@[k], (#[trigger] plans@[k]).0)
                    && plans@[k].1 == update_id_spec(response_results@[k]),
        decreases response_results@.len() - i,
    {
        let u = &response_results[i];
        plans.push((plan_update(u), update_id_of(u)));
        i += 1;
    }
    plans
}

// --- the membership event ---

/// What a join event asks for.
#[derive(Debug, Clone, Copy, PartialEq, Eq, Structural)]
pub enum NewMemberPlan {
    /// The bot itself joined: run the start flow, then store the chat's
    /// administrators and mark them admins.
    SetupBot,
    /// Somebody else joined: greet them and store them as a member.
    Welcome,
}

/// Decides how a join event is handled: the bot's own join installs it,
/// any other join is greeted.
pub fn plan_new_member(member: &User) -> (r: NewMemberPlan)
    ensures
        (r == NewMemberPlan::SetupBot) == (member.is_bot && member.username@
            == "dvizh_wroclaw_bot"@),
{
    if member.is_bot && crate::text::str_eq(member.username.as_str(), "dvizh_wroclaw_bot") {
        NewMemberPlan::SetupBot
    } else {
        NewMemberPlan::Welcome
    }
}

/// The repository record a joining member is stored under: username, first
/// name and language as sent, no birthdate yet.
pub fn member_db_user(member: &User) -> (r: crate::db_objects::User)
    ensures
        r.username@ == member.username@,
        r.first_name matches Some(f) && f@ == member.first_name@,
        r.birthdate is None,
        option_string_view(r.language_code) == option_string_view(member.language_code),
{
    crate::db_objects::User {
        username: member.username.clone(),
        first_name: Some(member.first_name.clone()),
        birthdate: None,
        language_code: crate::tg_objects::clone_option_string(&member.language_code),
    }
}

/// The repository record the start command registers the chat under: its
/// title, or the sender-facing first name when it has none, and English as
/// the initial language.
pub fn start_chat_record(chat: &Chat) -> (r: crate::db_objects::Chat)
    ensures
        r.id == chat.id,
        r.language_code@ == "en"@,
        match chat.title {
            Some(t) => r.title@ == t@,
            None => match chat.first_name {
                Some(f) => r.title@ == f@,
                None => r.title@ == Seq::<char>::empty(),
            },
        },
{
    let title = match &chat.title {
        Some(t) => t.clone(),
        None => match &chat.first_name {
            Some(f) => f.clone(),
            None => String::new(),
        },
    };
    crate::db_objects::Chat { id: chat.id, title, language_code: "en".to_owned() }
}

/// Whether the chat is a private conversation, where the start command also
/// registers the sender as admin.
pub fn is_private_chat(chat: &Chat) -> (r: bool)
    ensures
        r == (chat.chat_type@ == "private"@),
{
    crate::text::str_eq(chat.chat_type.as_str(), "private")
}

// --- offset acknowledgement ---

/// Advances the poll offset past one processed update, so the next poll
/// never re-delivers it.
pub fn acknowledge_update(offset: &mut i64, update_id: i64)
    requires
        update_id < i64::MAX,
    ensures
        *final(offset) == update_id + 1,
{
    *offset = update_id + 1;
}

/// The offset after acknowledging a batch of updates in order.
pub open spec fn offset_after(ids: Seq<i64>, initial: int) -> int
    decreases ids.len(),
{
    if ids.len() == 0 {
        initial
    } else {
        offset_after(ids.drop_first(), ids[0] + 1)
    }
}

/// Acknowledges every update of a batch, in order, whether or not its
/// handler succeeded: the resulting offset does not depend on `handler_ok`,
/// which is what makes delivery at-most-once.
pub fn acknowledge_batch(offset: &mut i64, update_ids: &Vec<i64>, handler_ok: &Vec<bool>)
    requires
        forall|k: int| 0 <= k < update_ids@.len() ==> update_ids@[k] < i64::MAX,
    ensures
        *final(offset) == offset_after(update_ids@, *old(offset) as int),
{
    let ghost ids = update_ids@;
    let mut i: usize = 0;
    proof {
        assert(ids.skip(0) =~= ids);
    }
    while i < update_ids.len()
        invariant
            0 <= i <= ids.len(),
            ids == update_ids@,
            forall|k: int| 0 <= k < ids.len() ==> ids[k] < i64::MAX,
            offset_after(ids, *old(offset) as int) == offset_after(
                ids.skip(i as int),
                *offset as int,
            ),
        decreases ids.len() - i,
    {
        proof {
            assert(ids.skip(i as int).drop_first() =~= ids.skip(i as int + 1));
            assert(ids.skip(i as int)[0] == ids[i as int]);
        }
        acknowledge_update(offset, update_ids[i]);
        i += 1;
    }
    proof {
        assert(ids.skip(ids.len() as int) =~= Seq::<i64>::empty());
    }
}

/// Law: over a batch with strictly increasing update ids, the recorded
/// offset ends at the greatest id plus one, no matter where it started and
/// no matter how many handlers failed (acknowledgement never consults the
/// handler's outcome).
pub proof fn lemma_offset_past_batch(ids: Seq<i64>, initial: int)
    requires
        ids.len() > 0,
        forall|i: int, j: int| 0 <= i < j < ids.len() ==> ids[i] < ids[j],
    ensures
        offset_after(ids, initial) == ids.last() + 1,
        forall|k: int| 0 <= k < ids.len() ==> ids[k] <= ids.last(),
    decreases ids.len(),
{
    if ids.len() == 1 {
        assert(ids.drop_first().len() == 0);
        assert(offset_after(ids.drop_first(), ids[0] + 1) == ids[0] + 1);
        assert(ids.last() == ids[0]);
    } else {
        assert(forall|i: int, j: int|
            0 <= i < j < ids.drop_first().len() ==> ids.drop_first()[i] < ids.drop_first()[j]);
        lemma_offset_past_batch(ids.drop_first(), ids[0] + 1);
        assert(ids.drop_first().last() == ids.last());
    }
}

} // verus!
