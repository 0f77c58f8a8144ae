//! The tree shape of a raw update payload.  The wire format is decoded at
//! the process edge; the core works on this tree: field lookup, structural
//! validation, and the depth-first search that recovers a chat id from a
//! payload that failed validation.

use crate::text::str_eq;
use vstd::prelude::*;

verus! {

/// A decoded payload value.  Numbers the logic reads are 64-bit integers
/// (ids, dates, sizes); a number that does not fit one is decoded as `Null`.
#[derive(Debug)]
pub enum JsonValue {
    Null,
    Bool(bool),
    Int(i64),
    Text(String),
    Array(Vec<JsonValue>),
    Object(Vec<(String, JsonValue)>),
}

/// The first value stored under `key`, if any.
pub open spec fn entries_lookup(entries: Seq<(String, JsonValue)>, key: Seq<char>) -> Option<
    JsonValue,
>
    decreases entries.len(),
{
    if entries.len() == 0 {
        None
    } else if entries[0].0@ == key {
        Some(entries[0].1)
    } else {
        entries_lookup(entries.drop_first(), key)
    }
}

/// The field `key` of an object, if `v` is an object that has it.
pub open spec fn json_get(v: JsonValue, key: Seq<char>) -> Option<JsonValue> {
    match v {
        JsonValue::Object(entries) => entries_lookup(entries@, key),
        _ => None,
    }
}

impl JsonValue {
    /// Looks a field up in an object; yields `None` on any other shape.
    pub fn get<'a>(&'a self, key: &str) -> (r: Option<&'a JsonValue>)
        ensures
            match r {
                Some(x) => json_get(*self, key@) == Some(*x),
                None => json_get(*self, key@) is None,
            },
    {
        match self {
            JsonValue::Object(entries) => {
                let ghost e = entries@;
                let mut i: usize = 0;
                proof {
                    assert(e.skip(0) =~= e);
                }
                while i < entries.len()
                    invariant
                        0 <= i <= e.len(),
                        e == entries@,
                        self matches JsonValue::Object(en) && en@ == e,
                        entries_lookup(e, key@) == entries_lookup(e.skip(i as int), key@),
                    decreases e.len() - i,
                {
                    proof {
                        assert(e.skip(i as int).drop_first() =~= e.skip(i as int + 1));
                        assert(e.skip(i as int)[0] == e[i as int]);
                    }
                    if str_eq(entries[i].0.as_str(), key) {
                        proof {
                            assert(entries_lookup(e.skip(i as int), key@) == Some(e[i as int].1));
                        }
                        return Some(&entries[i].1);
                    }
                    i += 1;
                }
                None
            },
            _ => None,
        }
    }

    /// The integer carried by an `Int` value.
    pub fn as_i64(&self) -> (r: Option<i64>)
        ensures
            match r {
                Some(n) => *self == JsonValue::Int(n),
                None => !(*self is Int),
            },
    {
        match self {
            JsonValue::Int(n) => Some(*n),
            _ => None,
        }
    }

    /// The text carried by a `Text` value.
    pub fn as_text<'a>(&'a self) -> (r: Option<&'a String>)
        ensures
            match r {
                Some(t) => *self == JsonValue::Text(*t),
                None => !(*self is Text),
            },
    {
        match self {
            JsonValue::Text(t) => Some(t),
            _ => None,
        }
    }

    /// Whether the value is an object.
    pub fn is_object(&self) -> (r: bool)
        ensures
            r == (*self is Object),
    {
        match self {
            JsonValue::Object(_) => true,
            _ => false,
        }
    }
}

/// The chat id directly under this object: the `id` field of its `chat`
/// field, when both are present and `id` is an integer.
pub open spec fn direct_chat_id(entries: Seq<(String, JsonValue)>) -> Option<i64> {
    match entries_lookup(entries, "chat"@) {
        Some(JsonValue::Object(chat)) => match entries_lookup(chat@, "id"@) {
            Some(JsonValue::Int(id)) => Some(id),
            _ => None,
        },
        _ => None,
    }
}

/// The best-effort chat id of a payload: a depth-first search over objects
/// and arrays; the first object carrying a `chat.id` field wins.
pub open spec fn find_chat_id_spec(v: JsonValue) -> Option<i64>
    decreases v,
{
    match v {
        JsonValue::Object(entries) => {
            if direct_chat_id(entries@) is Some {
                direct_chat_id(entries@)
            } else {
                find_chat_id_in_entries(entries@)
            }
        },
        JsonValue::Array(items) => find_chat_id_in_items(items@),
        _ => None,
    }
}

/// Depth-first search over the values of an object, in field order.
pub open spec fn find_chat_id_in_entries(entries: Seq<(String, JsonValue)>) -> Option<i64>
    decreases entries, 0int,
{
    if entries.len() == 0 {
        None
    } else {
        match find_chat_id_spec(entries[0].1) {
            Some(id) => Some(id),
            None => find_chat_id_in_entries(entries.drop_first()),
        }
    }
}

/// Depth-first search over the elements of an array, in order.
pub open spec fn find_chat_id_in_items(items: Seq<JsonValue>) -> Option<i64>
    decreases items, 0int,
{
    if items.len() == 0 {
        None
    } else {
        match find_chat_id_spec(items[0]) {
            Some(id) => Some(id),
            None => find_chat_id_in_items(items.drop_first()),
        }
    }
}

/// Recovers a chat id from a payload that failed structural validation, by
/// depth-first search: the first object with a nested `chat.id` wins.
pub fn find_chat_id(v: &JsonValue) -> (r: Option<i64>)
    ensures
        r == find_chat_id_spec(*v),
    decreases *v,
{
    match v {
        JsonValue::Object(entries) => {
            let direct = chat_id_of_entries(entries);
            if direct.is_some() {
                return direct;
            }
            let ghost e = entries@;
            let mut i: usize = 0;
            proof {
                assert(e.skip(0) =~= e);
            }
            while i < entries.len()
                invariant
                    0 <= i <= e.len(),
                    e == entries@,
                    v matches JsonValue::Object(en) && en@ == e,
                    direct_chat_id(e) is None,
                    find_chat_id_in_entries(e) == find_chat_id_in_entries(e.skip(i as int)),
                decreases e.len() - i,
            {
                proof {
                    assert(e.skip(i as int).drop_first() =~= e.skip(i as int + 1));
                    assert(e.skip(i as int)[0] == e[i as int]);
                }
                let found = find_chat_id(&entries[i].1);
                if found.is_some() {
                    return found;
                }
                i += 1;
            }
            proof {
                assert(e.skip(e.len() as int) =~= Seq::<(String, JsonValue)>::empty());
            }
            None
        },
        JsonValue::Array(items) => {
            let ghost its = items@;
            let mut i: usize = 0;
            proof {
                assert(its.skip(0) =~= its);
            }
            while i < items.len()
                invariant
                    0 <= i <= its.len(),
                    its == items@,
                    v matches JsonValue::Array(xs) && xs@ == its,
                    find_chat_id_in_items(its) == find_chat_id_in_items(its.skip(i as int)),
                decreases its.len() - i,
            {
                proof {
                    assert(its.skip(i as int).drop_first() =~= its.skip(i as int + 1));
                    assert(its.skip(i as int)[0] == its[i as int]);
                }
                let found = find_chat_id(&items[i]);
                if found.is_some() {
                    return found;
                }
                i += 1;
            }
            proof {
                assert(its.skip(its.len() as int) =~= Seq::<JsonValue>::empty());
            }
            None
        },
        _ => None,
    }
}

fn chat_id_of_entries(entries: &Vec<(String, JsonValue)>) -> (r: Option<i64>)
    ensures
        r == direct_chat_id(entries@),
{
    let ghost e = entries@;
    let mut i: usize = 0;
    proof {
        assert(e.skip(0) =~= e);
    }
    while i < entries.len()
        invariant
            0 <= i <= e.len(),
            e == entries@,
            entries_lookup(e, "chat"@) == entries_lookup(e.skip(i as int), "chat"@),
        decreases e.len() - i,
    {
        proof {
            assert(e.skip(i as int).drop_first() =~= e.skip(i as int + 1));
            assert(e.skip(i as int)[0] == e[i as int]);
        }
        if str_eq(entries[i].0.as_str(), "chat") {
            proof {
                assert(entries_lookup(e.skip(i as int), "chat"@) == Some(e[i as int].1));
            }
            match &entries[i].1 {
                JsonValue::Object(chat) => {
                    return int_field(chat, "id");
                },
                _ => {
                    return None;
                },
            }
        }
        i += 1;
    }
    None
}

fn int_field(entries: &Vec<(String, JsonValue)>, key: &str) -> (r: Option<i64>)
    ensures
        match entries_lookup(entries@, key@) {
            Some(JsonValue::Int(id)) => r == Some(id),
            _ => r is None,
        },
{
    let ghost e = entries@;
    let mut i: usize = 0;
    proof {
        assert(e.skip(0) =~= e);
    }
    while i < entries.len()
        invariant
            0 <= i <= e.len(),
            e == entries@,
            entries_lookup(e, key@) == entries_lookup(e.skip(i as int), key@),
        decreases e.len() - i,
    {
        proof {
            assert(e.skip(i as int).drop_first() =~= e.skip(i as int + 1));
            assert(e.skip(i as int)[0] == e[i as int]);
        }
        if str_eq(entries[i].0.as_str(), key) {
            proof {
                assert(entries_lookup(e.skip(i as int), key@) == Some(e[i as int].1));
            }
            match &entries[i].1 {
                JsonValue::Int(n) => {
                    return Some(*n);
                },
                _ => {
                    return None;
                },
            }
        }
        i += 1;
    }
    None
}

} // verus!
