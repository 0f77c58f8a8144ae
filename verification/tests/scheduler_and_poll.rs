//! The daily scheduler's boundary arithmetic and the long-poll loop's
//! request parameters and send bookkeeping.

use dvizh_bot::msg_request::MsgRequest;
use dvizh_bot::msg_type_utils::{msg_type_to_str, MsgType};
use dvizh_bot::messaging::{
    apply_send_result, edit_msg, edit_msg_and_remove_keyboard, remove_keyboard, send_error_msg,
    send_keyboard_msg, send_msg, send_photo_msg, send_reply_msg,
};
use dvizh_bot::message_handler::parse_message;
use dvizh_bot::json::JsonValue;
use dvizh_bot::tg_bot::{
    arm_daily_schedule, calc_seconds_until, poll_params, seconds_until,
    seconds_until_midnight_with_buffer,
};

fn sample_request() -> MsgRequest {
    let m = JsonValue::Object(vec![
        (
            "chat".to_string(),
            JsonValue::Object(vec![
                ("id".to_string(), JsonValue::Int(-42)),
                ("type".to_string(), JsonValue::Text("group".to_string())),
            ]),
        ),
        ("date".to_string(), JsonValue::Int(1)),
        (
            "from".to_string(),
            JsonValue::Object(vec![
                ("first_name".to_string(), JsonValue::Text("A".to_string())),
                ("id".to_string(), JsonValue::Int(7)),
                ("is_bot".to_string(), JsonValue::Bool(false)),
                ("username".to_string(), JsonValue::Text("a".to_string())),
            ]),
        ),
        ("message_id".to_string(), JsonValue::Int(900)),
        ("text".to_string(), JsonValue::Text("hi there".to_string())),
    ]);
    MsgRequest::new(500, MsgType::SendMessage, parse_message(&m))
}

#[test]
fn ten_minutes_before_midnight_arms_well_under_twenty_minutes() {
    let now = 23 * 3600 + 50 * 60;
    let plan = arm_daily_schedule(now);
    assert_eq!(plan.midnight_delay, 660);
    assert!(plan.midnight_delay < 20 * 60);
    assert_eq!(plan.period, 24 * 3600);
}

#[test]
fn boundary_delays_wrap_to_the_next_day() {
    assert_eq!(seconds_until(7 * 3600, 8 * 3600), 3600);
    assert_eq!(seconds_until(9 * 3600, 8 * 3600), 23 * 3600);
    assert_eq!(seconds_until(8 * 3600, 8 * 3600), 24 * 3600);
    assert_eq!(seconds_until_midnight_with_buffer(0), 86460);
    let d = calc_seconds_until(8, 0, 0);
    assert!((1..=86400).contains(&d));
}

#[test]
fn poll_parameters_carry_offset_and_timeout() {
    let params = poll_params(12345);
    assert_eq!(params[0], ("offset".to_string(), "12345".to_string()));
    assert_eq!(params[1], ("timeout".to_string(), "30".to_string()));
}

#[test]
fn api_method_names_match_the_wire() {
    assert_eq!(msg_type_to_str(&MsgType::GetUpdates), "getUpdates");
    assert_eq!(msg_type_to_str(&MsgType::SendMessage), "sendMessage");
    assert_eq!(msg_type_to_str(&MsgType::EditMessageReplyMarkup), "editMessageReplyMarkup");
}

#[test]
fn send_builders_address_the_carried_chat() {
    let mut req = sample_request();
    let p = send_msg(&req);
    assert_eq!(p[0], ("chat_id".to_string(), "-42".to_string()));
    assert_eq!(p[1], ("text".to_string(), "hi there".to_string()));

    let p = send_reply_msg(&req);
    assert_eq!(p[2], ("reply_to_message_id".to_string(), "900".to_string()));

    let p = send_keyboard_msg("{\"k\":1}", &req);
    assert_eq!(p[2], ("reply_markup".to_string(), "{\"k\":1}".to_string()));

    let p = send_error_msg(13, &req);
    assert_eq!(p[0], ("chat_id".to_string(), "13".to_string()));

    let p = edit_msg(&mut req);
    assert_eq!(p[1], ("message_id".to_string(), "900".to_string()));
    assert_eq!(req.method, MsgType::EditMessageText);

    let p = remove_keyboard(&mut req);
    assert_eq!(p[2], ("reply_markup".to_string(), "{}".to_string()));
    assert_eq!(req.method, MsgType::EditMessageReplyMarkup);

    let p = edit_msg_and_remove_keyboard(&mut req);
    assert_eq!(p[3], ("reply_markup".to_string(), "{}".to_string()));

    let p = send_photo_msg("https://example.test/a.png", "", &mut req);
    assert_eq!(p[1], ("photo".to_string(), "https://example.test/a.png".to_string()));
    assert_eq!(req.method, MsgType::SendPhoto);
}

#[test]
fn a_send_result_refreshes_the_message_id_and_acknowledges() {
    let mut req = sample_request();
    let mut offset: i64 = 0;
    apply_send_result(&mut offset, &mut req, Some(901));
    assert_eq!(offset, 501);
    assert_eq!(req.msg.as_ref().map(|m| m.message_id), Some(901));

    // Without a returned id the message is kept as it was.
    apply_send_result(&mut offset, &mut req, None);
    assert_eq!(req.msg.as_ref().map(|m| m.message_id), Some(901));
}

#[test]
fn message_text_can_be_rewritten() {
    let mut req = sample_request();
    assert_eq!(req.get_msg_text(), "hi there");
    req.set_msg_text(&"new text".to_string());
    assert_eq!(req.get_msg_text(), "new text");
    assert_eq!(req.get_msg().map(|m| m.chat.id), Some(-42));
}
