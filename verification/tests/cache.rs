//! The translation cache: lazy population, fallback, invalidation and the
//! callback-driven language change.

use dvizh_bot::callback_queries::{handle_callback_query, CallbackPlan};
use dvizh_bot::language_cache::{CacheOutcome, LanguageCache};
use dvizh_bot::translation_value::TranslationValue;

fn english_table() -> Vec<(String, TranslationValue)> {
    vec![
        (
            "hello".to_string(),
            TranslationValue::Text("Hello!".to_string()),
        ),
        (
            "8ball".to_string(),
            TranslationValue::Array(vec!["Yes".to_string(), "No".to_string()]),
        ),
    ]
}

#[test]
fn missing_key_falls_back_to_the_literal_key_after_one_load() {
    let mut cache = LanguageCache::new();

    // No language cached yet: the lookup asks for it, once.
    let mut loads = 0;
    let value = loop {
        match cache.get_translation_for_chat(10, "nonexistent_key") {
            CacheOutcome::NeedLanguage => {
                cache.update_group_language_code_cache(10, "en".to_string())
            }
            CacheOutcome::NeedTranslations(code) => {
                assert_eq!(code, "en");
                loads += 1;
                cache.store_translations(code, english_table());
            }
            CacheOutcome::Found(v) => break v,
        }
    };
    assert_eq!(loads, 1, "exactly one full-language load");
    match value {
        TranslationValue::Text(t) => assert_eq!(t, "nonexistent_key"),
        other => panic!("expected the literal key fallback, got {other:?}"),
    }

    // A second miss on another key loads nothing more.
    match cache.get_translation_for_chat(10, "another_missing_key") {
        CacheOutcome::Found(TranslationValue::Text(t)) => assert_eq!(t, "another_missing_key"),
        other => panic!("expected an immediate fallback, got {other:?}"),
    }
}

#[test]
fn present_key_resolves_to_the_stored_value() {
    let mut cache = LanguageCache::new();
    cache.update_group_language_code_cache(10, "en".to_string());
    cache.store_translations("en".to_string(), english_table());
    match cache.get_translation_for_chat(10, "hello") {
        CacheOutcome::Found(TranslationValue::Text(t)) => assert_eq!(t, "Hello!"),
        other => panic!("expected the stored text, got {other:?}"),
    }
    match cache.get_translation_for_chat(10, "8ball") {
        CacheOutcome::Found(TranslationValue::Array(a)) => assert_eq!(a, vec!["Yes", "No"]),
        other => panic!("expected the stored list, got {other:?}"),
    }
}

#[test]
fn lang_ru_callback_sets_russian_and_the_next_lookup_observes_it() {
    // The button press routes to exactly one language update, to "ru".
    let code = match handle_callback_query("lang_ru") {
        CallbackPlan::SetLanguage { code } => code,
        other => panic!("expected a language change, got {other:?}"),
    };
    assert_eq!(code, "ru");

    let mut cache = LanguageCache::new();
    cache.update_group_language_code_cache(10, "en".to_string());
    cache.update_group_language_code_cache(10, code);
    assert_eq!(cache.get_cached_language(10).as_deref(), Some("ru"));

    // The next get works against the new language, without a restart.
    match cache.get_translation_for_chat(10, "hello") {
        CacheOutcome::NeedTranslations(code) => assert_eq!(code, "ru"),
        other => panic!("expected a load of the new language, got {other:?}"),
    }
}

#[test]
fn language_update_leaves_other_chats_alone() {
    let mut cache = LanguageCache::new();
    cache.update_group_language_code_cache(1, "en".to_string());
    cache.update_group_language_code_cache(2, "pl".to_string());
    cache.update_group_language_code_cache(1, "ru".to_string());
    assert_eq!(cache.get_cached_language(1).as_deref(), Some("ru"));
    assert_eq!(cache.get_cached_language(2).as_deref(), Some("pl"));
    assert_eq!(cache.get_cached_language(3), None);
}

#[test]
fn two_lookups_of_the_same_uncached_pair_both_resolve() {
    let mut cache = LanguageCache::new();
    cache.update_group_language_code_cache(10, "en".to_string());

    // Both callers miss the table and load it; the duplicate load must not
    // corrupt the cache, and both resolve to a valid value.
    cache.store_translations("en".to_string(), english_table());
    cache.store_translations("en".to_string(), english_table());

    for _ in 0..2 {
        match cache.get_translation_for_chat(10, "hello") {
            CacheOutcome::Found(TranslationValue::Text(t)) => assert_eq!(t, "Hello!"),
            other => panic!("expected a valid value, got {other:?}"),
        }
    }
    assert_eq!(cache.translation_cache.len(), 1, "one table per language");
}

#[test]
fn zodiac_callback_routes_to_the_horoscope() {
    match handle_callback_query("zodiac_leo") {
        CallbackPlan::Horoscope { sign } => assert_eq!(sign, "Leo"),
        other => panic!("expected a horoscope request, got {other:?}"),
    }
    match handle_callback_query("zodiac_unheard_of") {
        CallbackPlan::Horoscope { sign } => assert_eq!(sign, "Unnown"),
        other => panic!("expected the sentinel sign, got {other:?}"),
    }
    match handle_callback_query("something_else") {
        CallbackPlan::NoOp => {}
        other => panic!("expected no action, got {other:?}"),
    }
}
