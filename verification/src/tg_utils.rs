//! Helpers around the Telegram API: decoding the administrator list from a
//! `getChatAdministrators` response, and the random picks the meme and
//! eight-ball commands make.

use crate::db_objects::User;
use crate::decimal::dec_int;
use crate::decimal::i64_to_string;
use crate::json::{json_get, JsonValue};
use crate::message_handler::opt_text_field_of;
use crate::messaging::param_is;
use crate::tg_objects::option_string_view;
use vstd::prelude::*;

verus! {

/// The query parameters of a `getChatAdministrators` call.
pub fn get_chat_administrators_params(chat_id: i64) -> (r: Vec<(String, String)>)
    ensures
        r@.len() == 1,
        param_is(r@[0], "chat_id"@, dec_int(chat_id as int)),
{
    let mut params: Vec<(String, String)> = Vec::new();
    params.push(("chat_id".to_owned(), i64_to_string(chat_id)));
    params
}

/// What one entry of the administrator array decodes to: the username with
/// the optional name and language, or nothing when the entry carries no
/// textual username.
pub open spec fn admin_view_of(item: JsonValue) -> Option<
    (Seq<char>, Option<Seq<char>>, Option<Seq<char>>),
> {
    match json_get(item, "user"@) {
        Some(u) => match json_get(u, "username"@) {
            Some(JsonValue::Text(name)) => Some(
                (name@, opt_text_field_of(u, "first_name"@), opt_text_field_of(
                    u,
                    "language_code"@,
                )),
            ),
            _ => None,
        },
        None => None,
    }
}

/// The decoded administrators of a response array, in order, entries
/// without a username dropped.
pub open spec fn admins_views(items: Seq<JsonValue>) -> Seq<
    (Seq<char>, Option<Seq<char>>, Option<Seq<char>>),
>
    decreases items.len(),
{
    if items.len() == 0 {
        Seq::empty()
    } else {
        match admin_view_of(items[0]) {
            Some(a) => seq![a] + admins_views(items.drop_first()),
            None => admins_views(items.drop_first()),
        }
    }
}

/// The items of the response's `result` array; anything else reads as
/// empty.
pub open spec fn result_items(response: JsonValue) -> Seq<JsonValue> {
    match json_get(response, "result"@) {
        Some(JsonValue::Array(items)) => items@,
        _ => Seq::empty(),
    }
}

/// The view under which a decoded administrator is compared: username,
/// first name, language code.
pub open spec fn admin_user_view(u: User) -> (Seq<char>, Option<Seq<char>>, Option<Seq<char>>) {
    (u.username@, option_string_view(u.first_name), option_string_view(u.language_code))
}

/// Decodes the administrator list of a `getChatAdministrators` response:
/// each entry of the `result` array with a textual username becomes a user
/// record without a birthdate; the rest are dropped.
pub fn get_chat_administrators(response: &JsonValue) -> (r: Vec<User>)
    ensures
        r@.map_values(|u: User| admin_user_view(u)) == admins_views(result_items(*response)),
        forall|k: int| 0 <= k < r@.len() ==> (#[trigger] r@[k]).birthdate is None,
{
    let mut admins: Vec<User> = Vec::new();
    proof {
        assert(admins@.map_values(|u: User| admin_user_view(u)) =~= Seq::<
            (Seq<char>, Option<Seq<char>>, Option<Seq<char>>),
        >::empty());
    }
    let items = match response.get("result") {
        Some(x) => match x {
            JsonValue::Array(items) => items,
            _ => {
                return admins;
            },
        },
        None => {
            return admins;
        },
    };
    let ghost its = items@;
    let mut i: usize = 0;
    proof {
        assert(its.skip(0) =~= its);
    }
    while i < items.len()
        invariant
            0 <= i <= its.len(),
            its == items@,
            its == result_items(*response),
            forall|k: int| 0 <= k < admins@.len() ==> (#[trigger] admins@[k]).birthdate is None,
            admins_views(its) == admins@.map_values(|u: User| admin_user_view(u)) + admins_views(
                its.skip(i as int),
            ),
        decreases its.len() - i,
    {
        proof {
            assert(its.skip(i as int).drop_first() =~= its.skip(i as int + 1));
            assert(its.skip(i as int)[0] == its[i as int]);
        }
        let item = &items[i];
        let ghost old_views = admins@.map_values(|u: User| admin_user_view(u));
        match item.get("user") {
            None => {},
            Some(u) => {
                match u.get("username") {
                    Some(JsonValue::Text(name)) => {
                        let first_name = match u.get("first_name") {
                            Some(JsonValue::Text(t)) => Some(t.clone()),
                            _ => None,
                        };
                        let language_code = match u.get("language_code") {
                            Some(JsonValue::Text(t)) => Some(t.clone()),
                            _ => None,
                        };
                        let admin = User {
                            username: name.clone(),
                            first_name,
                            birthdate: None,
                            language_code,
                        };
                        admins.push(admin);
                        proof {
                            assert(admins@.map_values(|u2: User| admin_user_view(u2))
                                =~= old_views.push(admin_user_view(admin)));
                            assert(seq![admin_user_view(admin)] + admins_views(
                                its.skip(i as int + 1),
                            ) =~= seq![admin_user_view(admin)].add(
                                admins_views(its.skip(i as int + 1)),
                            ));
                            assert(old_views.push(admin_user_view(admin)) + admins_views(
                                its.skip(i as int + 1),
                            ) =~= old_views + (seq![admin_user_view(admin)] + admins_views(
                                its.skip(i as int + 1),
                            )));
                        }
                    },
                    _ => {},
                }
            },
        }
        i += 1;
    }
    proof {
        assert(its.skip(its.len() as int) =~= Seq::<JsonValue>::empty());
        assert(admins@.map_values(|u: User| admin_user_view(u)) + Seq::<
            (Seq<char>, Option<Seq<char>>, Option<Seq<char>>),
        >::empty() =~= admins@.map_values(|u: User| admin_user_view(u)));
    }
    admins
}

/// The joke a joke-service response carries, when its `joke` field is a
/// text.
pub fn joke_text_of(response: &JsonValue) -> (r: Option<String>)
    ensures
        match r {
            Some(t) => json_get(*response, "joke"@) matches Some(JsonValue::Text(s)) && t@ == s@,
            None => !(json_get(*response, "joke"@) matches Some(JsonValue::Text(_))),
        },
{
    match response.get("joke") {
        Some(JsonValue::Text(t)) => Some(t.clone()),
        _ => None,
    }
}

/// The horoscope a horoscope-service response carries, when its
/// `data.horoscope_data` field is a text.
pub fn horoscope_text_of(response: &JsonValue) -> (r: Option<String>)
    ensures
        match r {
            Some(t) => match json_get(*response, "data"@) {
                Some(d) => json_get(d, "horoscope_data"@) matches Some(JsonValue::Text(s)) && t@
                    == s@,
                None => false,
            },
            None => match json_get(*response, "data"@) {
                Some(d) => !(json_get(d, "horoscope_data"@) matches Some(JsonValue::Text(_))),
                None => true,
            },
        },
{
    match response.get("data") {
        Some(d) => match d.get("horoscope_data") {
            Some(JsonValue::Text(t)) => Some(t.clone()),
            _ => None,
        },
        None => None,
    }
}

/// Relies on `rand::Rng::gen_range` over `0..n`, which yields a value of
/// the (non-empty) range; which one is chance, so only the bound is
/// promised.
#[verifier::external_body]
pub fn random_index(n: usize) -> (r: usize)
    requires
        n > 0,
    ensures
        r < n,
{
    rand::Rng::gen_range(&mut rand::thread_rng(), 0..n)
}

/// The meme cache is refilled in the background once it runs this low.
pub const MEME_REFILL_THRESHOLD: usize = 5;

/// Whether the meme cache should be refilled before serving.
pub fn meme_cache_needs_refill(count: usize) -> (r: bool)
    ensures
        r == (count <= 5),
{
    count <= MEME_REFILL_THRESHOLD
}

/// Takes a random meme out of the cache; an empty cache yields nothing and
/// is left as it is.
pub fn pick_meme(cache: &mut Vec<String>) -> (r: Option<String>)
    ensures
        old(cache)@.len() == 0 ==> r is None && final(cache)@ == old(cache)@,
        old(cache)@.len() > 0 ==> exists|k: int|
            {
                &&& 0 <= k < old(cache)@.len()
                &&& r == Some(old(cache)@[k])
                &&& final(cache)@ == old(cache)@.remove(k)
            },
{
    if cache.len() == 0 {
        return None;
    }
    let k = random_index(cache.len());
    let url = cache.remove(k);
    Some(url)
}

/// Picks one line of the eight-ball list at random; an empty list falls
/// back to the not-found text.
pub fn choose_8ball_reply(options: &Vec<String>) -> (r: String)
    ensures
        options@.len() == 0 ==> r@ == "404: Not found"@,
        options@.len() > 0 ==> exists|k: int| 0 <= k < options@.len() && r@ == (
        #[trigger] options@[k])@,
{
    if options.len() == 0 {
        return "404: Not found".to_owned();
    }
    let k = random_index(options.len());
    options[k].clone()
}

} // verus!
