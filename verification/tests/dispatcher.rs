//! The update dispatcher: classification, command routing and offset
//! acknowledgement, exercised end to end on concrete payloads.

use dvizh_bot::command_utils::{command_str_to_type, CommandType};
use dvizh_bot::commands::{handle_command, CommandAction};
use dvizh_bot::json::JsonValue;
use dvizh_bot::message_handler::{
    acknowledge_batch, acknowledge_update, create_msg_request, parse_message, plan_new_member,
    plan_update, MessageIntake, NewMemberPlan, UpdatePlan,
};

fn text(s: &str) -> JsonValue {
    JsonValue::Text(s.to_string())
}

fn chat_object(id: i64) -> JsonValue {
    JsonValue::Object(vec![
        ("id".to_string(), JsonValue::Int(id)),
        ("type".to_string(), text("group")),
        ("title".to_string(), text("the group")),
    ])
}

fn user_object(name: &str) -> JsonValue {
    JsonValue::Object(vec![
        ("first_name".to_string(), text("Ann")),
        ("id".to_string(), JsonValue::Int(7)),
        ("is_bot".to_string(), JsonValue::Bool(false)),
        ("language_code".to_string(), text("en")),
        ("username".to_string(), text(name)),
    ])
}

fn message_object(chat_id: i64, message_text: &str) -> JsonValue {
    JsonValue::Object(vec![
        ("chat".to_string(), chat_object(chat_id)),
        ("date".to_string(), JsonValue::Int(1700000000)),
        ("from".to_string(), user_object("ann")),
        ("message_id".to_string(), JsonValue::Int(55)),
        ("text".to_string(), text(message_text)),
    ])
}

fn update_with_message(m: JsonValue) -> JsonValue {
    JsonValue::Object(vec![
        ("update_id".to_string(), JsonValue::Int(100)),
        ("message".to_string(), m),
    ])
}

#[test]
fn addevent_command_is_tokenized_with_quotes() {
    let u = update_with_message(message_object(
        1,
        "/addevent \"Summer Party\" 01.06.2025 \"Main Square\" \"BBQ and music\"",
    ));
    match plan_update(&u) {
        UpdatePlan::Command { command, args, .. } => {
            assert_eq!(command, Some(CommandType::AddEvent));
            assert_eq!(args.len(), 4);
            assert_eq!(args[0], "Summer Party");
            assert_eq!(args[1], "01.06.2025");
            assert_eq!(args[2], "Main Square");
            assert_eq!(args[3], "BBQ and music");
            match handle_command(Some(CommandType::AddEvent), Some(args)) {
                CommandAction::AddEvent { args } => assert_eq!(args[0], "Summer Party"),
                other => panic!("expected AddEvent, got {other:?}"),
            }
        }
        other => panic!("expected a command plan, got {other:?}"),
    }
}

#[test]
fn setbirthday_without_arguments_short_circuits() {
    match handle_command(Some(CommandType::SetBirthdate), Some(vec![])) {
        CommandAction::ShortCircuit { error_key } => {
            assert_eq!(error_key, "error_insufficient_arguments")
        }
        other => panic!("expected a short circuit, got {other:?}"),
    }
}

#[test]
fn setbirthday_with_missing_argument_list_short_circuits() {
    match handle_command(Some(CommandType::SetBirthdate), None) {
        CommandAction::ShortCircuit { error_key } => {
            assert_eq!(error_key, "error_missing_arguments")
        }
        other => panic!("expected a short circuit, got {other:?}"),
    }
}

#[test]
fn setbirthday_with_invalid_calendar_date_short_circuits() {
    match handle_command(
        Some(CommandType::SetBirthdate),
        Some(vec!["31.02.2025".to_string()]),
    ) {
        CommandAction::ShortCircuit { error_key } => assert_eq!(error_key, "error_invalid_date"),
        other => panic!("expected a short circuit, got {other:?}"),
    }
}

#[test]
fn setbirthday_with_valid_date_reaches_the_handler() {
    match handle_command(
        Some(CommandType::SetBirthdate),
        Some(vec!["29.02.2024".to_string()]),
    ) {
        CommandAction::SetBirthdate { date } => assert_eq!(date, "29.02.2024"),
        other => panic!("expected the birthday action, got {other:?}"),
    }
}

#[test]
fn malformed_payload_recovers_chat_id_and_still_acknowledges() {
    // The message lacks required fields, but a nested object carries chat.id.
    let broken = JsonValue::Object(vec![(
        "reply".to_string(),
        JsonValue::Object(vec![("chat".to_string(), chat_object(42))]),
    )]);
    let u = update_with_message(broken);
    match plan_update(&u) {
        UpdatePlan::ReportMalformed { chat_id } => assert_eq!(chat_id, Some(42)),
        other => panic!("expected the malformed path, got {other:?}"),
    }
    let mut offset: i64 = 0;
    acknowledge_update(&mut offset, 100);
    assert_eq!(offset, 101);
}

#[test]
fn offset_lands_past_the_greatest_update_id_despite_failures() {
    let mut offset: i64 = 0;
    let ids = vec![3, 7, 20];
    let handler_ok = vec![true, false, false];
    acknowledge_batch(&mut offset, &ids, &handler_ok);
    assert_eq!(offset, 21);
}

#[test]
fn photo_message_is_skipped() {
    let mut entries = match message_object(1, "hi") {
        JsonValue::Object(e) => e,
        _ => unreachable!(),
    };
    entries.push(("photo".to_string(), JsonValue::Array(vec![])));
    match create_msg_request(&JsonValue::Object(entries)) {
        MessageIntake::Skipped => {}
        other => panic!("expected a skip, got {other:?}"),
    }
}

#[test]
fn bare_slash_routes_to_the_no_command_reply() {
    let u = update_with_message(message_object(1, "/"));
    match plan_update(&u) {
        UpdatePlan::NoCommand { .. } => {}
        other => panic!("expected the no-command plan, got {other:?}"),
    }
    // The route produces exactly one outbound message: the no-command reply.
    match handle_command(None, None) {
        CommandAction::ShortCircuit { error_key } => assert_eq!(error_key, "no_command"),
        other => panic!("expected the no-command reply, got {other:?}"),
    }
}

#[test]
fn slash_with_only_whitespace_is_no_command_too() {
    let u = update_with_message(message_object(1, "/   "));
    match plan_update(&u) {
        UpdatePlan::NoCommand { .. } => {}
        other => panic!("expected the no-command plan, got {other:?}"),
    }
}

#[test]
fn unknown_command_routes_to_the_unknown_command_reply() {
    let u = update_with_message(message_object(1, "/frobnicate now"));
    match plan_update(&u) {
        UpdatePlan::Command { command, args, .. } => {
            assert_eq!(command, None);
            assert_eq!(args, vec!["now".to_string()]);
            match handle_command(command, Some(args)) {
                CommandAction::ShortCircuit { error_key } => {
                    assert_eq!(error_key, "unknown_command")
                }
                other => panic!("expected the unknown-command reply, got {other:?}"),
            }
        }
        other => panic!("expected a command plan, got {other:?}"),
    }
}

#[test]
fn patience_command_gets_its_reply() {
    assert_eq!(command_str_to_type("patience"), Some(CommandType::Patience));
    match handle_command(Some(CommandType::Patience), Some(vec![])) {
        CommandAction::Patience => {}
        other => panic!("expected the patience reply, got {other:?}"),
    }
}

#[test]
fn command_name_is_case_insensitive_and_bot_suffix_is_stripped() {
    let u = update_with_message(message_object(1, "/HeLp@dvizh_wroclaw_bot"));
    match plan_update(&u) {
        UpdatePlan::Command { command, args, .. } => {
            assert_eq!(command, Some(CommandType::Help));
            assert!(args.is_empty());
        }
        other => panic!("expected a command plan, got {other:?}"),
    }
}

#[test]
fn plain_text_needs_no_action() {
    let u = update_with_message(message_object(1, "good morning"));
    match plan_update(&u) {
        UpdatePlan::PlainText { msg } => assert_eq!(msg.chat.id, 1),
        other => panic!("expected the plain text plan, got {other:?}"),
    }
}

#[test]
fn parse_message_extracts_every_field() {
    let m = message_object(9, "hello");
    let msg = parse_message(&m).expect("the payload is well-formed");
    assert_eq!(msg.chat.id, 9);
    assert_eq!(msg.chat.chat_type, "group");
    assert_eq!(msg.chat.title.as_deref(), Some("the group"));
    assert_eq!(msg.date, 1700000000);
    assert_eq!(msg.from.username, "ann");
    assert_eq!(msg.from.first_name, "Ann");
    assert_eq!(msg.message_id, 55);
    assert_eq!(msg.text.as_deref(), Some("hello"));
    assert!(msg.new_chat_member.is_none());
}

#[test]
fn joining_bot_installs_itself_and_others_are_welcomed() {
    let mut m = match parse_message(&message_object(1, "x")) {
        Some(m) => m,
        None => unreachable!(),
    };
    let mut member = m.from.duplicate();
    member.is_bot = true;
    member.username = "dvizh_wroclaw_bot".to_string();
    assert_eq!(plan_new_member(&member), NewMemberPlan::SetupBot);
    m.from.is_bot = false;
    assert_eq!(plan_new_member(&m.from), NewMemberPlan::Welcome);
}
