//! Text utilities, validation, the spam score, translation values, JSON
//! lookup and the random-pick helpers.

use dvizh_bot::command_utils::{command_str_to_type, parse_command_arguments, CommandType};
use dvizh_bot::commands::normalized_username;
use dvizh_bot::json::{find_chat_id, JsonValue};
use dvizh_bot::spam::{is_spam_by_score, spam_score};
use dvizh_bot::text::{join_with_semicolons, join_with_space};
use dvizh_bot::tg_utils::{
    choose_8ball_reply, get_chat_administrators, horoscope_text_of, joke_text_of,
    meme_cache_needs_refill, pick_meme,
};
use dvizh_bot::translation_value::{TranslationValue, TranslationValueError};
use dvizh_bot::validations::{validate_argument_count, validate_date_format};

#[test]
fn tokenizer_keeps_quoted_groups_together() {
    let args =
        parse_command_arguments("addevent \"Summer Party\" 01.06.2025 \"Main Square\" \"BBQ and music\"");
    assert_eq!(
        args,
        vec!["addevent", "Summer Party", "01.06.2025", "Main Square", "BBQ and music"]
    );
    assert_eq!(parse_command_arguments("  "), Vec::<String>::new());
    assert_eq!(parse_command_arguments("[two words] three"), vec!["two words", "three"]);
    assert_eq!(
        parse_command_arguments("\u{201C}curly quotes\u{201D} x"),
        vec!["curly quotes", "x"]
    );
}

#[test]
fn command_lookup_is_case_insensitive() {
    assert_eq!(command_str_to_type("START"), Some(CommandType::Start));
    assert_eq!(command_str_to_type("SetBirthday"), Some(CommandType::SetBirthdate));
    assert_eq!(command_str_to_type("8ball"), Some(CommandType::EightBall));
    assert_eq!(command_str_to_type("unknown"), None);
}

#[test]
fn argument_count_is_checked_exactly() {
    assert_eq!(
        validate_argument_count(None, 1).unwrap_err(),
        "error_missing_arguments"
    );
    assert_eq!(
        validate_argument_count(Some(vec!["a".to_string(), "b".to_string()]), 1).unwrap_err(),
        "error_insufficient_arguments"
    );
    assert_eq!(
        validate_argument_count(Some(vec!["a".to_string()]), 1).unwrap(),
        vec!["a".to_string()]
    );
}

#[test]
fn date_validation_knows_the_calendar() {
    assert!(validate_date_format("01.06.2025").is_ok());
    assert!(validate_date_format("29.02.2024").is_ok());
    assert_eq!(validate_date_format("31.02.2025").unwrap_err(), "error_invalid_date");
    assert_eq!(validate_date_format("29.02.2025").unwrap_err(), "error_invalid_date");
    assert_eq!(validate_date_format("00.01.2025").unwrap_err(), "error_invalid_date");
    assert_eq!(validate_date_format("01.13.2025").unwrap_err(), "error_invalid_date");
    assert_eq!(validate_date_format("1.6.2025").unwrap_err(), "error_invalid_date");
    assert_eq!(validate_date_format("01-06-2025").unwrap_err(), "error_invalid_date");
}

#[test]
fn spam_score_sums_the_matched_rules() {
    assert_eq!(spam_score("nothing suspicious"), 0);
    // One rule of weight four, matched case-insensitively.
    assert_eq!(spam_score("ПОДРАБОТКА"), 4);
    // 3 + 4 + 3 reaches the threshold.
    assert!(is_spam_by_score("заработок, пиши в лс, всё просто"));
    assert!(!is_spam_by_score("подработка"));
}

#[test]
fn translation_values_refuse_the_wrong_variant() {
    let t = TranslationValue::Text("x".to_string());
    let a = TranslationValue::Array(vec!["y".to_string()]);
    assert_eq!(t.clone().expect_text().unwrap(), "x");
    assert_eq!(
        t.expect_array().unwrap_err(),
        TranslationValueError::ExpectedArray
    );
    assert_eq!(a.clone().expect_array().unwrap(), vec!["y".to_string()]);
    assert_eq!(
        a.expect_text().unwrap_err(),
        TranslationValueError::ExpectedText
    );
    assert_eq!(
        TranslationValueError::ExpectedText.message(),
        "Expected a text translation but found an array."
    );
}

#[test]
fn chat_id_recovery_takes_the_first_nested_hit() {
    let v = JsonValue::Array(vec![
        JsonValue::Object(vec![("other".to_string(), JsonValue::Int(1))]),
        JsonValue::Object(vec![(
            "deep".to_string(),
            JsonValue::Object(vec![
                (
                    "chat".to_string(),
                    JsonValue::Object(vec![("id".to_string(), JsonValue::Int(5))]),
                ),
            ]),
        )]),
        JsonValue::Object(vec![(
            "chat".to_string(),
            JsonValue::Object(vec![("id".to_string(), JsonValue::Int(6))]),
        )]),
    ]);
    assert_eq!(find_chat_id(&v), Some(5));
    assert_eq!(find_chat_id(&JsonValue::Null), None);
}

#[test]
fn administrators_without_a_username_are_dropped() {
    let response = JsonValue::Object(vec![(
        "result".to_string(),
        JsonValue::Array(vec![
            JsonValue::Object(vec![(
                "user".to_string(),
                JsonValue::Object(vec![
                    ("username".to_string(), JsonValue::Text("boss".to_string())),
                    ("first_name".to_string(), JsonValue::Text("Bo".to_string())),
                ]),
            )]),
            JsonValue::Object(vec![(
                "user".to_string(),
                JsonValue::Object(vec![("id".to_string(), JsonValue::Int(3))]),
            )]),
        ]),
    )]);
    let admins = get_chat_administrators(&response);
    assert_eq!(admins.len(), 1);
    assert_eq!(admins[0].username, "boss");
    assert_eq!(admins[0].first_name.as_deref(), Some("Bo"));
    assert!(admins[0].birthdate.is_none());
}

#[test]
fn service_responses_yield_their_text_fields() {
    let joke = JsonValue::Object(vec![(
        "joke".to_string(),
        JsonValue::Text("A short joke.".to_string()),
    )]);
    assert_eq!(joke_text_of(&joke).as_deref(), Some("A short joke."));
    assert_eq!(joke_text_of(&JsonValue::Null), None);

    let horoscope = JsonValue::Object(vec![(
        "data".to_string(),
        JsonValue::Object(vec![(
            "horoscope_data".to_string(),
            JsonValue::Text("A fine day.".to_string()),
        )]),
    )]);
    assert_eq!(horoscope_text_of(&horoscope).as_deref(), Some("A fine day."));
    assert_eq!(horoscope_text_of(&joke), None);
}

#[test]
fn random_picks_stay_in_bounds() {
    let options = vec!["a".to_string(), "b".to_string(), "c".to_string()];
    let picked = choose_8ball_reply(&options);
    assert!(options.contains(&picked));
    assert_eq!(choose_8ball_reply(&Vec::new()), "404: Not found");

    let mut cache = vec!["m1".to_string(), "m2".to_string()];
    let got = pick_meme(&mut cache).unwrap();
    assert!(got == "m1" || got == "m2");
    assert_eq!(cache.len(), 1);
    let mut empty: Vec<String> = Vec::new();
    assert!(pick_meme(&mut empty).is_none());

    assert!(meme_cache_needs_refill(5));
    assert!(!meme_cache_needs_refill(6));
}

#[test]
fn joined_text_keeps_separator_placement() {
    assert_eq!(
        join_with_semicolons(&vec!["a".to_string(), "b".to_string(), "c".to_string()]),
        "a;b;c"
    );
    assert_eq!(join_with_semicolons(&Vec::new()), "");
    assert_eq!(join_with_space("Welcome", "Ann"), "Welcome Ann");
}

#[test]
fn usernames_lose_their_at_signs() {
    assert_eq!(normalized_username("@ann"), "ann");
    assert_eq!(normalized_username("a@n@n"), "ann");
    assert_eq!(normalized_username("ann"), "ann");
}
