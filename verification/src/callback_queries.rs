//! Routing of callback queries: the opaque `data` string of a button press
//! decides between a language change and a horoscope request.

use crate::text::{has_prefix, starts_with, str_eq};
use vstd::prelude::*;

verus! {

/// What a callback query asks for.
#[derive(Debug)]
pub enum CallbackPlan {
    /// A `lang_*` button: overwrite the chat's language in the repository
    /// and the cache, then remove the keyboard.
    SetLanguage { code: String },
    /// A `zodiac_*` button: acknowledge with a placeholder, fetch the sign's
    /// horoscope, translate it when the chat is not English, and edit the
    /// placeholder into the result.
    Horoscope { sign: String },
    /// Any other data string: nothing to do.
    NoOp,
}

/// The language code a `lang_*` button sets; anything unrecognised falls
/// back to English.
pub open spec fn lang_code_of(data: Seq<char>) -> Seq<char> {
    if data == "lang_en"@ {
        "en"@
    } else if data == "lang_ru"@ {
        "ru"@
    } else if data == "lang_pl"@ {
        "pl"@
    } else {
        "en"@
    }
}

/// The zodiac sign a `zodiac_*` button asks about; anything unrecognised
/// maps to the sentinel sign name.
pub open spec fn zodiac_of(data: Seq<char>) -> Seq<char> {
    if data == "zodiac_aries"@ {
        "Aries"@
    } else if data == "zodiac_taurus"@ {
        "Taurus"@
    } else if data == "zodiac_gemini"@ {
        "Gemini"@
    } else if data == "zodiac_cancer"@ {
        "Cancer"@
    } else if data == "zodiac_leo"@ {
        "Leo"@
    } else if data == "zodiac_virgo"@ {
        "Virgo"@
    } else if data == "zodiac_libra"@ {
        "Libra"@
    } else if data == "zodiac_scorpio"@ {
        "Scorpio"@
    } else if data == "zodiac_sagittarius"@ {
        "Sagittarius"@
    } else if data == "zodiac_capricorn"@ {
        "Capricorn"@
    } else if data == "zodiac_aquarius"@ {
        "Aquarius"@
    } else if data == "zodiac_pisces"@ {
        "Pisces"@
    } else {
        "Unnown"@
    }
}

/// Routes a callback query by its data string: `lang_*` sets the chat's
/// language, `zodiac_*` asks for a horoscope, anything else does nothing.
pub fn handle_callback_query(data: &str) -> (r: CallbackPlan)
    ensures
        starts_with(data@, "lang_"@) ==> (r matches CallbackPlan::SetLanguage { code } && code@
            == lang_code_of(data@)),
        !starts_with(data@, "lang_"@) && starts_with(data@, "zodiac_"@) ==> (r
            matches CallbackPlan::Horoscope { sign } && sign@ == zodiac_of(data@)),
        !starts_with(data@, "lang_"@) && !starts_with(data@, "zodiac_"@) ==> r is NoOp,
{
    if has_prefix(data, "lang_") {
        let code = if str_eq(data, "lang_en") {
            "en"
        } else if str_eq(data, "lang_ru") {
            "ru"
        } else if str_eq(data, "lang_pl") {
            "pl"
        } else {
            "en"
        };
        CallbackPlan::SetLanguage { code: code.to_owned() }
    } else if has_prefix(data, "zodiac_") {
        let sign = if str_eq(data, "zodiac_aries") {
            "Aries"
        } else if str_eq(data, "zodiac_taurus") {
            "Taurus"
        } else if str_eq(data, "zodiac_gemini") {
            "Gemini"
        } else if str_eq(data, "zodiac_cancer") {
            "Cancer"
        } else if str_eq(data, "zodiac_leo") {
            "Leo"
        } else if str_eq(data, "zodiac_virgo") {
            "Virgo"
        } else if str_eq(data, "zodiac_libra") {
            "Libra"
        } else if str_eq(data, "zodiac_scorpio") {
            "Scorpio"
        } else if str_eq(data, "zodiac_sagittarius") {
            "Sagittarius"
        } else if str_eq(data, "zodiac_capricorn") {
            "Capricorn"
        } else if str_eq(data, "zodiac_aquarius") {
            "Aquarius"
        } else if str_eq(data, "zodiac_pisces") {
            "Pisces"
        } else {
            "Unnown"
        };
        CallbackPlan::Horoscope { sign: sign.to_owned() }
    } else {
        CallbackPlan::NoOp
    }
}

/// Law: a button press carrying `lang_ru` routes to exactly one language
/// update, and the language it sets is `ru`.
pub proof fn lemma_lang_ru_sets_russian()
    ensures
        lang_code_of("lang_ru"@) == "ru"@,
        starts_with("lang_ru"@, "lang_"@),
{
    reveal_strlit("lang_ru");
    reveal_strlit("lang_en");
    reveal_strlit("lang_");
    reveal_strlit("ru");
    assert(("lang_ru"@)[5] == 'r' && ("lang_en"@)[5] == 'e');
    assert(("lang_ru"@).subrange(0, 5) =~= "lang_"@);
}

} // verus!
