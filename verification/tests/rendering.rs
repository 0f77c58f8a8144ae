//! Template rendering, decimal formatting and the notification passes'
//! message building.

use dvizh_bot::db_objects::{Event, User};
use dvizh_bot::decimal::{i64_to_string, u64_to_string};
use dvizh_bot::events::{
    birth_year_of, compute_age, render_birthday_message, render_event_message, reminde_events,
    send_daily_greeting, send_happy_birthday,
};
use dvizh_bot::msg_type_utils::MsgType;
use dvizh_bot::template::replace_all;
use dvizh_bot::tg_bot::format_day_month;

#[test]
fn replace_substitutes_every_occurrence() {
    assert_eq!(replace_all("a-b-a", "a", "xy"), "xy-b-xy");
    assert_eq!(replace_all("aaa", "aa", "b"), "ba");
    assert_eq!(replace_all("nothing here", "zzz", "y"), "nothing here");
    assert_eq!(replace_all("{x} and {x}", "{x}", ""), " and ");
}

#[test]
fn event_template_is_filled_in_order() {
    let event = Event::new(
        5,
        "Summer Party".to_string(),
        "01.06.2025".to_string(),
        "Main Square".to_string(),
        "BBQ and music".to_string(),
    );
    let rendered = render_event_message("{title} on {date} at {location}: {description}", &event);
    assert_eq!(rendered, "Summer Party on 01.06.2025 at Main Square: BBQ and music");

    let (method, params) = reminde_events(&event, "{title} / {date}");
    assert_eq!(method, MsgType::SendMessage);
    assert_eq!(params[0], ("chat_id".to_string(), "5".to_string()));
    assert_eq!(params[1], ("text".to_string(), "Summer Party / 01.06.2025".to_string()));
}

#[test]
fn birthday_message_uses_name_username_and_age() {
    let user = User::new(
        "ann".to_string(),
        Some("Ann".to_string()),
        Some("29.02.2000".to_string()),
        None,
    );
    let birth_year = birth_year_of("29.02.2000");
    assert_eq!(birth_year, 2000);
    let age = compute_age(2025, birth_year);
    assert_eq!(age, 25);
    let rendered = render_birthday_message("{first_name} (@{username}) turns {age}!", &user, age);
    assert_eq!(rendered, "Ann (@ann) turns 25!");

    let (method, params) = send_happy_birthday(&user, -100, "{username}: {age}", age);
    assert_eq!(method, MsgType::SendMessage);
    assert_eq!(params[0], ("chat_id".to_string(), "-100".to_string()));
    assert_eq!(params[1], ("text".to_string(), "ann: 25".to_string()));
}

#[test]
fn unknown_first_name_gets_the_placeholder() {
    let user = User::new("bob".to_string(), None, None, None);
    let rendered = render_birthday_message("{first_name}", &user, 1);
    assert_eq!(rendered, "unknown :(");
}

#[test]
fn daily_greeting_addresses_the_chat() {
    let (method, params) = send_daily_greeting(77, "Good morning!");
    assert_eq!(method, MsgType::SendMessage);
    assert_eq!(params[0], ("chat_id".to_string(), "77".to_string()));
    assert_eq!(params[1], ("text".to_string(), "Good morning!".to_string()));
}

#[test]
fn decimal_rendering_matches_to_string() {
    assert_eq!(i64_to_string(0), "0");
    assert_eq!(i64_to_string(-1), "-1");
    assert_eq!(i64_to_string(987654321), "987654321");
    assert_eq!(i64_to_string(i64::MIN), i64::MIN.to_string());
    assert_eq!(i64_to_string(i64::MAX), i64::MAX.to_string());
    assert_eq!(u64_to_string(10), "10");
}

#[test]
fn day_month_key_is_zero_padded() {
    assert_eq!(format_day_month(1, 6), "01.06");
    assert_eq!(format_day_month(31, 12), "31.12");
}
