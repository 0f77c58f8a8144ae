//! Command parsing: the fixed command table and the tokenizer that splits a
//! command line into arguments, honouring quote and bracket groups.

use crate::text::{chars_of, lower_of, string_from_chars, to_lowercase, trim_chars, trim_spec,
    str_eq};
use vstd::prelude::*;

verus! {

/// The commands the bot understands.
#[derive(Debug, Clone, Copy, PartialEq, Eq, Structural)]
pub enum CommandType {
    Start,
    Hello,
    Help,
    SetBirthdate,
    SetBirthdateFor,
    AddEvent,
    ListEvents,
    Meme,
    Astro,
    Luck,
    Patience,
    Joke,
    EightBall,
    Tease,
    Test,
}

/// The command a (lower-case) name resolves to, or `None` for an unknown
/// name.
pub open spec fn command_of(s: Seq<char>) -> Option<CommandType> {
    if s == "start"@ {
        Some(CommandType::Start)
    } else if s == "hello"@ {
        Some(CommandType::Hello)
    } else if s == "help"@ {
        Some(CommandType::Help)
    } else if s == "setbirthday"@ {
        Some(CommandType::SetBirthdate)
    } else if s == "setbirthdayfor"@ {
        Some(CommandType::SetBirthdateFor)
    } else if s == "addevent"@ {
        Some(CommandType::AddEvent)
    } else if s == "listevents"@ {
        Some(CommandType::ListEvents)
    } else if s == "meme"@ {
        Some(CommandType::Meme)
    } else if s == "astro"@ {
        Some(CommandType::Astro)
    } else if s == "luck"@ {
        Some(CommandType::Luck)
    } else if s == "patience"@ {
        Some(CommandType::Patience)
    } else if s == "joke"@ {
        Some(CommandType::Joke)
    } else if s == "8ball"@ {
        Some(CommandType::EightBall)
    } else if s == "tease"@ {
        Some(CommandType::Tease)
    } else if s == "test"@ {
        Some(CommandType::Test)
    } else {
        None
    }
}

/// Looks a command name up in the fixed command table, case-insensitively.
pub fn command_str_to_type(t: &str) -> (r: Option<CommandType>)
    ensures
        r == command_of(lower_of(t@)),
{
    let lower = to_lowercase(t);
    let l = lower.as_str();
    if str_eq(l, "start") {
        Some(CommandType::Start)
    } else if str_eq(l, "hello") {
        Some(CommandType::Hello)
    } else if str_eq(l, "help") {
        Some(CommandType::Help)
    } else if str_eq(l, "setbirthday") {
        Some(CommandType::SetBirthdate)
    } else if str_eq(l, "setbirthdayfor") {
        Some(CommandType::SetBirthdateFor)
    } else if str_eq(l, "addevent") {
        Some(CommandType::AddEvent)
    } else if str_eq(l, "listevents") {
        Some(CommandType::ListEvents)
    } else if str_eq(l, "meme") {
        Some(CommandType::Meme)
    } else if str_eq(l, "astro") {
        Some(CommandType::Astro)
    } else if str_eq(l, "luck") {
        Some(CommandType::Luck)
    } else if str_eq(l, "patience") {
        Some(CommandType::Patience)
    } else if str_eq(l, "joke") {
        Some(CommandType::Joke)
    } else if str_eq(l, "8ball") {
        Some(CommandType::EightBall)
    } else if str_eq(l, "tease") {
        Some(CommandType::Tease)
    } else if str_eq(l, "test") {
        Some(CommandType::Test)
    } else {
        None
    }
}

/// A character that opens or closes a quoted or bracketed group.
pub open spec fn is_group_delim(c: char) -> bool {
    c == '"' || c == '\u{201C}' || c == '\u{201D}' || c == '[' || c == ']'
}

fn is_group_delim_char(c: char) -> (r: bool)
    ensures
        r == is_group_delim(c),
{
    c == '"' || c == '\u{201C}' || c == '\u{201D}' || c == '[' || c == ']'
}

/// The tokenizer, written as a fold over the remaining characters: `cur` is
/// the token being built, `acc` the tokens finished so far, `in_quotes`
/// whether an unclosed group delimiter stands open.  Finished tokens are
/// trimmed; empty tokens are dropped.
pub open spec fn tokenize_from(
    s: Seq<char>,
    i: int,
    in_quotes: bool,
    cur: Seq<char>,
    acc: Seq<Seq<char>>,
) -> Seq<Seq<char>>
    decreases s.len() - i,
{
    if i < 0 || i >= s.len() {
        if cur.len() > 0 {
            acc.push(trim_spec(cur))
        } else {
            acc
        }
    } else if is_group_delim(s[i]) {
        tokenize_from(s, i + 1, !in_quotes, cur, acc)
    } else if s[i] == ' ' && !in_quotes {
        if cur.len() > 0 {
            tokenize_from(s, i + 1, in_quotes, Seq::empty(), acc.push(trim_spec(cur)))
        } else {
            tokenize_from(s, i + 1, in_quotes, cur, acc)
        }
    } else {
        tokenize_from(s, i + 1, in_quotes, cur.push(s[i]), acc)
    }
}

/// The argument tokens of a command line.
pub open spec fn tokenize(s: Seq<char>) -> Seq<Seq<char>> {
    tokenize_from(s, 0, false, Seq::empty(), Seq::empty())
}

/// Splits message text into argument tokens.  Whitespace separates tokens
/// except inside quote or bracket groups; group delimiters are dropped; each
/// token is trimmed.
pub fn parse_command_arguments(msg_text: &str) -> (r: Vec<String>)
    ensures
        r@.map_values(|t: String| t@) == tokenize(msg_text@),
{
    tokenize_chars(&chars_of(msg_text))
}

/// The tokenizer itself, over a vector of characters.
pub fn tokenize_chars(s: &Vec<char>) -> (r: Vec<String>)
    ensures
        r@.map_values(|t: String| t@) == tokenize(s@),
{
    let ghost sq = s@;
    let mut args: Vec<String> = Vec::new();
    let mut current_arg: Vec<char> = Vec::new();
    let mut in_quotes = false;
    let mut i: usize = 0;
    proof {
        assert(args@.map_values(|t: String| t@) =~= Seq::<Seq<char>>::empty());
    }
    while i < s.len()
        invariant
            0 <= i <= sq.len(),
            s@ == sq,
            tokenize(sq) == tokenize_from(
                sq,
                i as int,
                in_quotes,
                current_arg@,
                args@.map_values(|t: String| t@),
            ),
        decreases sq.len() - i,
    {
        let c = s[i];
        if is_group_delim_char(c) {
            in_quotes = !in_quotes;
        } else if c == ' ' && !in_quotes {
            if current_arg.len() > 0 {
                let token = string_from_chars(&trim_chars(&current_arg));
                let ghost old_views = args@.map_values(|t: String| t@);
                args.push(token);
                current_arg = Vec::new();
                proof {
                    assert(args@.map_values(|t: String| t@) =~= old_views.push(token@));
                    assert(current_arg@ =~= Seq::<char>::empty());
                }
            }
        } else {
            current_arg.push(c);
        }
        i += 1;
    }
    if current_arg.len() > 0 {
        let token = string_from_chars(&trim_chars(&current_arg));
        let ghost old_views = args@.map_values(|t: String| t@);
        args.push(token);
        proof {
            assert(args@.map_values(|t: String| t@) =~= old_views.push(token@));
        }
    }
    args
}

} // verus!
