//! Command routing: argument-count and date validation ahead of every
//! handler, and the action each command resolves to.

use crate::command_utils::CommandType;
use crate::validations::{valid_date_str, validate_argument_count, validate_date_format};
use vstd::prelude::*;

verus! {

/// The action a routed command asks for.  A failed validation short-circuits
/// to a translated error message and the business handler is never invoked.
#[derive(Debug)]
pub enum CommandAction {
    /// Register the chat (and its admin, for a private chat), then send the
    /// greeting with the language keyboard.
    Start,
    /// Send the translated greeting.
    Hello,
    /// Send the translated help text.
    Help,
    /// Store the sender's birthday (date already validated).
    SetBirthdate { date: String },
    /// Store another user's birthday (date already validated).
    SetBirthdateFor { username: String, date: String },
    /// Store an event: title, date, location, description.
    AddEvent { args: Vec<String> },
    /// List the chat's upcoming events.
    ListEvents,
    /// Send a random meme photo.
    Meme,
    /// Send the zodiac keyboard.
    Astro,
    /// Send the translated luck reply.
    Luck,
    /// Send a placeholder, fetch a joke, translate it, edit it in.
    Joke,
    /// Send a placeholder, then edit a random line of the translated list in.
    EightBall,
    /// Send a placeholder, fetch an insult in the chat's language, edit it
    /// in.
    Tease,
    /// Send the translated patience reply.
    Patience,
    /// Echo the argument back.
    Test { args: Vec<String> },
    /// No handler to invoke: send the translated message under this key and
    /// stop.  Carries the validation errors, the no-command reply for a bare
    /// `/`, and the unknown-command reply for a name outside the table.
    ShortCircuit { error_key: String },
}

/// Routes a command to its action.  The router owns validation: a wrong
/// argument count or an invalid date short-circuits to the translated error
/// and the handler is never reached.  A bare `/` (no arguments at all)
/// yields the no-command reply; a name outside the table (arguments present,
/// no command) yields the unknown-command reply: every route ends in
/// exactly one outbound message.
pub fn handle_command(command_t: Option<CommandType>, command_args: Option<Vec<String>>) -> (r:
    CommandAction)
    ensures
        match command_t {
            None => match command_args {
                None => r matches CommandAction::ShortCircuit { error_key } && error_key@
                    == "no_command"@,
                Some(_) => r matches CommandAction::ShortCircuit { error_key } && error_key@
                    == "unknown_command"@,
            },
            Some(CommandType::Start) => r is Start,
            Some(CommandType::Hello) => r is Hello,
            Some(CommandType::Help) => r is Help,
            Some(CommandType::ListEvents) => r is ListEvents,
            Some(CommandType::Meme) => r is Meme,
            Some(CommandType::Astro) => r is Astro,
            Some(CommandType::Luck) => r is Luck,
            Some(CommandType::Joke) => r is Joke,
            Some(CommandType::Tease) => r is Tease,
            Some(CommandType::Patience) => r is Patience,
            Some(CommandType::SetBirthdate) => match command_args {
                None => r matches CommandAction::ShortCircuit { error_key } && error_key@
                    == "error_missing_arguments"@,
                Some(a) => if a@.len() != 1 {
                    r matches CommandAction::ShortCircuit { error_key } && error_key@
                        == "error_insufficient_arguments"@
                } else if valid_date_str(a@[0]@) {
                    r matches CommandAction::SetBirthdate { date } && date == a@[0]
                } else {
                    r matches CommandAction::ShortCircuit { error_key } && error_key@
                        == "error_invalid_date"@
                },
            },
            Some(CommandType::SetBirthdateFor) => match command_args {
                None => r matches CommandAction::ShortCircuit { error_key } && error_key@
                    == "error_missing_arguments"@,
                Some(a) => if a@.len() != 2 {
                    r matches CommandAction::ShortCircuit { error_key } && error_key@
                        == "error_insufficient_arguments"@
                } else if valid_date_str(a@[1]@) {
                    r matches CommandAction::SetBirthdateFor { username, date } && username == a@[0]
                        && date == a@[1]
                } else {
                    r matches CommandAction::ShortCircuit { error_key } && error_key@
                        == "error_invalid_date"@
                },
            },
            Some(CommandType::AddEvent) => match command_args {
                None => r matches CommandAction::ShortCircuit { error_key } && error_key@
                    == "error_missing_arguments"@,
                Some(a) => if a@.len() != 4 {
                    r matches CommandAction::ShortCircuit { error_key } && error_key@
                        == "error_insufficient_arguments"@
                } else {
                    r matches CommandAction::AddEvent { args } && args == a
                },
            },
            Some(CommandType::EightBall) => match command_args {
                None => r matches CommandAction::ShortCircuit { error_key } && error_key@
                    == "error_missing_arguments"@,
                Some(a) => if a@.len() != 1 {
                    r matches CommandAction::ShortCircuit { error_key } && error_key@
                        == "error_insufficient_arguments"@
                } else {
                    r is EightBall
                },
            },
            Some(CommandType::Test) => match command_args {
                None => r matches CommandAction::ShortCircuit { error_key } && error_key@
                    == "error_missing_arguments"@,
                Some(a) => if a@.len() != 1 {
                    r matches CommandAction::ShortCircuit { error_key } && error_key@
                        == "error_insufficient_arguments"@
                } else {
                    r matches CommandAction::Test { args } && args == a
                },
            },
        },
{
    match command_t {
        None => match command_args {
            None => CommandAction::ShortCircuit { error_key: "no_command".to_owned() },
            Some(_) => CommandAction::ShortCircuit { error_key: "unknown_command".to_owned() },
        },
        Some(CommandType::Start) => CommandAction::Start,
        Some(CommandType::Hello) => CommandAction::Hello,
        Some(CommandType::Help) => CommandAction::Help,
        Some(CommandType::ListEvents) => CommandAction::ListEvents,
        Some(CommandType::Meme) => CommandAction::Meme,
        Some(CommandType::Astro) => CommandAction::Astro,
        Some(CommandType::Luck) => CommandAction::Luck,
        Some(CommandType::Joke) => CommandAction::Joke,
        Some(CommandType::Tease) => CommandAction::Tease,
        Some(CommandType::Patience) => CommandAction::Patience,
        Some(CommandType::SetBirthdate) => match validate_argument_count(command_args, 1) {
            Ok(mut args) => match validate_date_format(args[0].as_str()) {
                Ok(()) => {
                    let date = args.remove(0);
                    CommandAction::SetBirthdate { date }
                },
                Err(error_key) => CommandAction::ShortCircuit { error_key },
            },
            Err(error_key) => CommandAction::ShortCircuit { error_key },
        },
        Some(CommandType::SetBirthdateFor) => match validate_argument_count(command_args, 2) {
            Ok(mut args) => match validate_date_format(args[1].as_str()) {
                Ok(()) => {
                    let username = args.remove(0);
                    let date = args.remove(0);
                    CommandAction::SetBirthdateFor { username, date }
                },
                Err(error_key) => CommandAction::ShortCircuit { error_key },
            },
            Err(error_key) => CommandAction::ShortCircuit { error_key },
        },
        Some(CommandType::AddEvent) => match validate_argument_count(command_args, 4) {
            Ok(args) => CommandAction::AddEvent { args },
            Err(error_key) => CommandAction::ShortCircuit { error_key },
        },
        Some(CommandType::EightBall) => match validate_argument_count(command_args, 1) {
            Ok(_) => CommandAction::EightBall,
            Err(error_key) => CommandAction::ShortCircuit { error_key },
        },
        Some(CommandType::Test) => match validate_argument_count(command_args, 1) {
            Ok(args) => CommandAction::Test { args },
            Err(error_key) => CommandAction::ShortCircuit { error_key },
        },
    }
}

/// The username a birthday is stored under: the handle with every `'@'`
/// removed.
pub fn normalized_username(username: &str) -> (r: String)
    ensures
        r@ == crate::template::replace_seq(username@, "@"@, Seq::<char>::empty()),
{
    proof {
        reveal_strlit("");
        assert(""@ =~= Seq::<char>::empty());
    }
    crate::template::replace_all(username, "@", "")
}

/// The language keyboard the start command sends.
pub open spec fn language_keyboard_spec() -> Seq<char> {
    "{\"inline_keyboard\":[[{\"callback_data\":\"lang_en\",\"text\":\"English\"},{\"callback_data\":\"lang_ru\",\"text\":\"\u{0420}\u{0443}\u{0441}\u{0441}\u{043A}\u{0438}\u{0439}\"},{\"callback_data\":\"lang_pl\",\"text\":\"Polski\"}]]}"@
}

/// The reply markup offering a language choice.
pub fn language_keyboard() -> (r: &'static str)
    ensures
        r@ == language_keyboard_spec(),
{
    "{\"inline_keyboard\":[[{\"callback_data\":\"lang_en\",\"text\":\"English\"},{\"callback_data\":\"lang_ru\",\"text\":\"\u{0420}\u{0443}\u{0441}\u{0441}\u{043A}\u{0438}\u{0439}\"},{\"callback_data\":\"lang_pl\",\"text\":\"Polski\"}]]}"
}

/// The zodiac keyboard the astro command sends.
pub open spec fn zodiac_keyboard_spec() -> Seq<char> {
    "{\"inline_keyboard\":[[{\"callback_data\":\"zodiac_aries\",\"text\":\"Aries\"},{\"callback_data\":\"zodiac_taurus\",\"text\":\"Taurus\"}],[{\"callback_data\":\"zodiac_gemini\",\"text\":\"Gemini\"},{\"callback_data\":\"zodiac_cancer\",\"text\":\"Cancer\"}],[{\"callback_data\":\"zodiac_leo\",\"text\":\"Leo\"},{\"callback_data\":\"zodiac_virgo\",\"text\":\"Virgo\"}],[{\"callback_data\":\"zodiac_libra\",\"text\":\"Libra\"},{\"callback_data\":\"zodiac_scorpio\",\"text\":\"Scorpio\"}],[{\"callback_data\":\"zodiac_sagittarius\",\"text\":\"Sagittarius\"},{\"callback_data\":\"zodiac_capricorn\",\"text\":\"Capricorn\"}],[{\"callback_data\":\"zodiac_aquarius\",\"text\":\"Aquarius\"},{\"callback_data\":\"zodiac_pisces\",\"text\":\"Pisces\"}]]}"@
}

/// The reply markup offering the twelve zodiac signs.
pub fn zodiac_keyboard() -> (r: &'static str)
    ensures
        r@ == zodiac_keyboard_spec(),
{
    "{\"inline_keyboard\":[[{\"callback_data\":\"zodiac_aries\",\"text\":\"Aries\"},{\"callback_data\":\"zodiac_taurus\",\"text\":\"Taurus\"}],[{\"callback_data\":\"zodiac_gemini\",\"text\":\"Gemini\"},{\"callback_data\":\"zodiac_cancer\",\"text\":\"Cancer\"}],[{\"callback_data\":\"zodiac_leo\",\"text\":\"Leo\"},{\"callback_data\":\"zodiac_virgo\",\"text\":\"Virgo\"}],[{\"callback_data\":\"zodiac_libra\",\"text\":\"Libra\"},{\"callback_data\":\"zodiac_scorpio\",\"text\":\"Scorpio\"}],[{\"callback_data\":\"zodiac_sagittarius\",\"text\":\"Sagittarius\"},{\"callback_data\":\"zodiac_capricorn\",\"text\":\"Capricorn\"}],[{\"callback_data\":\"zodiac_aquarius\",\"text\":\"Aquarius\"},{\"callback_data\":\"zodiac_pisces\",\"text\":\"Pisces\"}]]}"
}

} // verus!
