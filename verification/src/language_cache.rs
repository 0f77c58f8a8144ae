//! The two-level translation cache: chat id to language code, and language
//! code to a full translation table.  The cache itself never does I/O: when a
//! lookup needs the repository or the translation backing store, it says so,
//! and the caller hands the loaded data back in one piece, so no reader ever
//! observes a partially populated language table.

use crate::text::str_eq;
use crate::translation_value::TranslationValue;
use vstd::prelude::*;

verus! {

/// The first language entry for `id`, if any.
pub open spec fn lang_lookup(entries: Seq<(i64, String)>, id: i64) -> Option<String>
    decreases entries.len(),
{
    if entries.len() == 0 {
        None
    } else if entries[0].0 == id {
        Some(entries[0].1)
    } else {
        lang_lookup(entries.drop_first(), id)
    }
}

/// `entries` with the language of `id` overwritten by `code` (or appended
/// when `id` is new).
pub open spec fn store_lang(entries: Seq<(i64, String)>, id: i64, code: String) -> Seq<
    (i64, String),
>
    decreases entries.len(),
{
    if entries.len() == 0 {
        seq![(id, code)]
    } else if entries[0].0 == id {
        seq![(id, code)] + entries.drop_first()
    } else {
        seq![entries[0]] + store_lang(entries.drop_first(), id, code)
    }
}

/// The first translation table for the language `code`, if any.
pub open spec fn table_lookup(
    tables: Seq<(String, Vec<(String, TranslationValue)>)>,
    code: Seq<char>,
) -> Option<Vec<(String, TranslationValue)>>
    decreases tables.len(),
{
    if tables.len() == 0 {
        None
    } else if tables[0].0@ == code {
        Some(tables[0].1)
    } else {
        table_lookup(tables.drop_first(), code)
    }
}

/// `tables` with the table of `code` overwritten in one piece (or appended
/// when the language is new).
pub open spec fn store_table(
    tables: Seq<(String, Vec<(String, TranslationValue)>)>,
    code: String,
    table: Vec<(String, TranslationValue)>,
) -> Seq<(String, Vec<(String, TranslationValue)>)>
    decreases tables.len(),
{
    if tables.len() == 0 {
        seq![(code, table)]
    } else if tables[0].0@ == code@ {
        seq![(code, table)] + tables.drop_first()
    } else {
        seq![tables[0]] + store_table(tables.drop_first(), code, table)
    }
}

/// The first value for `key` in a translation table, if any.
pub open spec fn value_lookup(table: Seq<(String, TranslationValue)>, key: Seq<char>) -> Option<
    TranslationValue,
>
    decreases table.len(),
{
    if table.len() == 0 {
        None
    } else if table[0].0@ == key {
        Some(table[0].1)
    } else {
        value_lookup(table.drop_first(), key)
    }
}

/// What a cache lookup comes to: a value, or the datum the caller must fetch
/// first and hand back.
#[derive(Debug)]
pub enum CacheOutcome {
    /// The chat's language is not cached: fetch it from the repository and
    /// store it with `update_group_language_code_cache`.
    NeedLanguage,
    /// The language is known but its table is not loaded: load the whole
    /// table for this code and hand it to `store_translations`.
    NeedTranslations(String),
    /// The resolved value; a missing key resolves to the key itself, so the
    /// caller always has something renderable.
    Found(TranslationValue),
}

/// The two-level cache.
#[derive(Debug)]
pub struct LanguageCache {
    pub chat_language_cache: Vec<(i64, String)>,
    pub translation_cache: Vec<(String, Vec<(String, TranslationValue)>)>,
}

impl LanguageCache {
    /// An empty cache.
    pub fn new() -> (r: LanguageCache)
        ensures
            r.chat_language_cache@ == Seq::<(i64, String)>::empty(),
            r.translation_cache@ == Seq::<(String, Vec<(String, TranslationValue)>)>::empty(),
    {
        LanguageCache { chat_language_cache: Vec::new(), translation_cache: Vec::new() }
    }

    /// The cached language of a chat.
    pub fn get_cached_language(&self, group_id: i64) -> (r: Option<String>)
        ensures
            r == lang_lookup(self.chat_language_cache@, group_id),
    {
        let entries = &self.chat_language_cache;
        let ghost e = entries@;
        let mut i: usize = 0;
        proof {
            assert(e.skip(0) =~= e);
        }
        while i < entries.len()
            invariant
                0 <= i <= e.len(),
                e == entries@,
                e == self.chat_language_cache@,
                lang_lookup(e, group_id) == lang_lookup(e.skip(i as int), group_id),
            decreases e.len() - i,
        {
            proof {
                assert(e.skip(i as int).drop_first() =~= e.skip(i as int + 1));
                assert(e.skip(i as int)[0] == e[i as int]);
            }
            if entries[i].0 == group_id {
                proof {
                    assert(lang_lookup(e.skip(i as int), group_id) == Some(e[i as int].1));
                }
                return Some(entries[i].1.clone());
            }
            i += 1;
        }
        None
    }

    /// Overwrites the cached language of `group_id` with `code`, so the next
    /// lookup observes the new language immediately.  The translation tables
    /// are left alone: other chats may still use the old language.
    pub fn update_group_language_code_cache(&mut self, group_id: i64, code: String)
        ensures
            final(self).chat_language_cache@ == store_lang(
                old(self).chat_language_cache@,
                group_id,
                code,
            ),
            final(self).translation_cache == old(self).translation_cache,
    {
        let ghost e = self.chat_language_cache@;
        let n = self.chat_language_cache.len();
        let mut i: usize = 0;
        while i < n
            invariant
                0 <= i <= n,
                n == e.len(),
                self.chat_language_cache@ == e,
                self.translation_cache == old(self).translation_cache,
                e == old(self).chat_language_cache@,
                forall|k: int| 0 <= k < i ==> e[k].0 != group_id,
            decreases n - i,
        {
            if self.chat_language_cache[i].0 == group_id {
                self.chat_language_cache.remove(i);
                self.chat_language_cache.insert(i, (group_id, code));
                proof {
                    lemma_store_lang_found(e, group_id, code, i as int);
                    assert(self.chat_language_cache@ =~= e.update(i as int, (group_id, code)));
                }
                return ;
            }
            i += 1;
        }
        self.chat_language_cache.push((group_id, code));
        proof {
            lemma_store_lang_missing(e, group_id, code);
        }
    }

    fn find_table(&self, code: &str) -> (r: Option<&Vec<(String, TranslationValue)>>)
        ensures
            match r {
                Some(t) => table_lookup(self.translation_cache@, code@) == Some(*t),
                None => table_lookup(self.translation_cache@, code@) is None,
            },
    {
        let tables = &self.translation_cache;
        let ghost ts = tables@;
        let mut i: usize = 0;
        proof {
            assert(ts.skip(0) =~= ts);
        }
        while i < tables.len()
            invariant
                0 <= i <= ts.len(),
                ts == tables@,
                ts == self.translation_cache@,
                table_lookup(ts, code@) == table_lookup(ts.skip(i as int), code@),
            decreases ts.len() - i,
        {
            proof {
                assert(ts.skip(i as int).drop_first() =~= ts.skip(i as int + 1));
                assert(ts.skip(i as int)[0] == ts[i as int]);
            }
            if str_eq(tables[i].0.as_str(), code) {
                proof {
                    assert(table_lookup(ts.skip(i as int), code@) == Some(ts[i as int].1));
                }
                return Some(&tables[i].1);
            }
            i += 1;
        }
        None
    }

    fn find_value<'a>(table: &'a Vec<(String, TranslationValue)>, key: &str) -> (r: Option<
        &'a TranslationValue,
    >)
        ensures
            match r {
                Some(v) => value_lookup(table@, key@) == Some(*v),
                None => value_lookup(table@, key@) is None,
            },
    {
        let ghost t = table@;
        let mut i: usize = 0;
        proof {
            assert(t.skip(0) =~= t);
        }
        while i < table.len()
            invariant
                0 <= i <= t.len(),
                t == table@,
                value_lookup(t, key@) == value_lookup(t.skip(i as int), key@),
            decreases t.len() - i,
        {
            proof {
                assert(t.skip(i as int).drop_first() =~= t.skip(i as int + 1));
                assert(t.skip(i as int)[0] == t[i as int]);
            }
            if str_eq(table[i].0.as_str(), key) {
                proof {
                    assert(value_lookup(t.skip(i as int), key@) == Some(t[i as int].1));
                }
                return Some(&table[i].1);
            }
            i += 1;
        }
        None
    }

    /// Resolves `key` for the chat `group_id` against the cache alone.
    ///
    /// The outcome either carries the value, or names the one datum that must
    /// be fetched: the chat's language, or the whole translation table of
    /// that language.  Once the language's table is present, every key
    /// resolves: a key absent from a freshly loaded table falls back to the
    /// literal key text rather than an error.
    pub fn get_translation_for_chat(&self, group_id: i64, key: &str) -> (r: CacheOutcome)
        ensures
            match r {
                CacheOutcome::NeedLanguage => lang_lookup(self.chat_language_cache@, group_id)
                    is None,
                CacheOutcome::NeedTranslations(code) => lang_lookup(
                    self.chat_language_cache@,
                    group_id,
                ) == Some(code) && table_lookup(self.translation_cache@, code@) is None,
                CacheOutcome::Found(v) => match lang_lookup(self.chat_language_cache@, group_id) {
                    Some(code) => match table_lookup(self.translation_cache@, code@) {
                        Some(table) => match value_lookup(table@, key@) {
                            Some(stored) => v@ == stored@,
                            None => v matches TranslationValue::Text(t) && t@ == key@,
                        },
                        None => false,
                    },
                    None => false,
                },
            },
    {
        let code = match self.get_cached_language(group_id) {
            None => {
                return CacheOutcome::NeedLanguage;
            },
            Some(code) => code,
        };
        let table = match self.find_table(code.as_str()) {
            None => {
                return CacheOutcome::NeedTranslations(code);
            },
            Some(table) => table,
        };
        match Self::find_value(table, key) {
            Some(v) => CacheOutcome::Found(v.duplicate()),
            None => CacheOutcome::Found(TranslationValue::Text(key.to_owned())),
        }
    }

    /// Stores the freshly loaded translation table of `code`, whole, in one
    /// step: a concurrent reader sees either no table for `code` or this
    /// complete one, never part of it.
    pub fn store_translations(&mut self, code: String, table: Vec<(String, TranslationValue)>)
        ensures
            final(self).translation_cache@ == store_table(
                old(self).translation_cache@,
                code,
                table,
            ),
            final(self).chat_language_cache == old(self).chat_language_cache,
    {
        let ghost ts = self.translation_cache@;
        let n = self.translation_cache.len();
        let mut i: usize = 0;
        while i < n
            invariant
                0 <= i <= n,
                n == ts.len(),
                self.translation_cache@ == ts,
                self.chat_language_cache == old(self).chat_language_cache,
                ts == old(self).translation_cache@,
                forall|k: int| 0 <= k < i ==> ts[k].0@ != code@,
            decreases n - i,
        {
            if str_eq(self.translation_cache[i].0.as_str(), code.as_str()) {
                self.translation_cache.remove(i);
                self.translation_cache.insert(i, (code, table));
                proof {
                    lemma_store_table_found(ts, code, table, i as int);
                    assert(self.translation_cache@ =~= ts.update(i as int, (code, table)));
                }
                return ;
            }
            i += 1;
        }
        self.translation_cache.push((code, table));
        proof {
            lemma_store_table_missing(ts, code, table);
        }
    }
}

proof fn lemma_store_lang_found(e: Seq<(i64, String)>, id: i64, code: String, k: int)
    requires
        0 <= k < e.len(),
        e[k].0 == id,
        forall|j: int| 0 <= j < k ==> e[j].0 != id,
    ensures
        store_lang(e, id, code) == e.update(k, (id, code)),
    decreases k,
{
    if k == 0 {
        assert(store_lang(e, id, code) =~= e.update(0, (id, code)));
    } else {
        lemma_store_lang_found(e.drop_first(), id, code, k - 1);
        assert(store_lang(e, id, code) == seq![e[0]] + store_lang(e.drop_first(), id, code));
        assert(seq![e[0]] + e.drop_first().update(k - 1, (id, code)) =~= e.update(k, (id, code)));
    }
}

proof fn lemma_store_lang_missing(e: Seq<(i64, String)>, id: i64, code: String)
    requires
        forall|j: int| 0 <= j < e.len() ==> e[j].0 != id,
    ensures
        store_lang(e, id, code) == e.push((id, code)),
    decreases e.len(),
{
    if e.len() == 0 {
        assert(store_lang(e, id, code) =~= e.push((id, code)));
    } else {
        lemma_store_lang_missing(e.drop_first(), id, code);
        assert(seq![e[0]] + e.drop_first().push((id, code)) =~= e.push((id, code)));
    }
}

proof fn lemma_store_table_found(
    ts: Seq<(String, Vec<(String, TranslationValue)>)>,
    code: String,
    table: Vec<(String, TranslationValue)>,
    k: int,
)
    requires
        0 <= k < ts.len(),
        ts[k].0@ == code@,
        forall|j: int| 0 <= j < k ==> ts[j].0@ != code@,
    ensures
        store_table(ts, code, table) == ts.update(k, (code, table)),
    decreases k,
{
    if k == 0 {
        assert(store_table(ts, code, table) =~= ts.update(0, (code, table)));
    } else {
        lemma_store_table_found(ts.drop_first(), code, table, k - 1);
        assert(store_table(ts, code, table) == seq![ts[0]] + store_table(
            ts.drop_first(),
            code,
            table,
        ));
        assert(seq![ts[0]] + ts.drop_first().update(k - 1, (code, table)) =~= ts.update(
            k,
            (code, table),
        ));
    }
}

proof fn lemma_store_table_missing(
    ts: Seq<(String, Vec<(String, TranslationValue)>)>,
    code: String,
    table: Vec<(String, TranslationValue)>,
)
    requires
        forall|j: int| 0 <= j < ts.len() ==> ts[j].0@ != code@,
    ensures
        store_table(ts, code, table) == ts.push((code, table)),
    decreases ts.len(),
{
    if ts.len() == 0 {
        assert(store_table(ts, code, table) =~= ts.push((code, table)));
    } else {
        lemma_store_table_missing(ts.drop_first(), code, table);
        assert(seq![ts[0]] + ts.drop_first().push((code, table)) =~= ts.push((code, table)));
    }
}

/// Law: overwriting a chat's language is observed by the very next lookup
/// for that chat — no restart or eviction is needed.
pub proof fn lemma_language_update_observed(e: Seq<(i64, String)>, id: i64, code: String)
    ensures
        lang_lookup(store_lang(e, id, code), id) == Some(code),
    decreases e.len(),
{
    if e.len() == 0 {
    } else if e[0].0 == id {
    } else {
        lemma_language_update_observed(e.drop_first(), id, code);
        assert((seq![e[0]] + store_lang(e.drop_first(), id, code)).drop_first() =~= store_lang(
            e.drop_first(),
            id,
            code,
        ));
    }
}

/// Law: overwriting one chat's language leaves every other chat's cached
/// language as it was.
pub proof fn lemma_language_update_isolated(
    e: Seq<(i64, String)>,
    id: i64,
    other: i64,
    code: String,
)
    requires
        other != id,
    ensures
        lang_lookup(store_lang(e, id, code), other) == lang_lookup(e, other),
    decreases e.len(),
{
    if e.len() == 0 {
        let s2 = seq![(id, code)];
        assert(store_lang(e, id, code) =~= s2);
        assert(s2.drop_first() =~= Seq::<(i64, String)>::empty());
        assert(lang_lookup(s2.drop_first(), other) is None);
    } else if e[0].0 == id {
        let s2 = seq![(id, code)] + e.drop_first();
        assert(s2[0] == (id, code));
        assert(s2.drop_first() =~= e.drop_first());
        assert(lang_lookup(s2, other) == lang_lookup(e.drop_first(), other));
    } else {
        lemma_language_update_isolated(e.drop_first(), id, other, code);
        let s2 = seq![e[0]] + store_lang(e.drop_first(), id, code);
        assert(s2[0] == e[0]);
        assert(s2.drop_first() =~= store_lang(e.drop_first(), id, code));
    }
}

/// Law: after a language's table is stored, lookups for that language find
/// exactly the stored table.
pub proof fn lemma_translations_load_observed(
    ts: Seq<(String, Vec<(String, TranslationValue)>)>,
    code: String,
    table: Vec<(String, TranslationValue)>,
)
    ensures
        table_lookup(store_table(ts, code, table), code@) == Some(table),
    decreases ts.len(),
{
    if ts.len() == 0 {
    } else if ts[0].0@ == code@ {
    } else {
        lemma_translations_load_observed(ts.drop_first(), code, table);
        assert((seq![ts[0]] + store_table(ts.drop_first(), code, table)).drop_first()
            =~= store_table(ts.drop_first(), code, table));
    }
}

/// Law: loading one language's table does not touch the tables of other
/// languages.
pub proof fn lemma_translations_load_isolated(
    ts: Seq<(String, Vec<(String, TranslationValue)>)>,
    code: String,
    other: Seq<char>,
    table: Vec<(String, TranslationValue)>,
)
    requires
        other != code@,
    ensures
        table_lookup(store_table(ts, code, table), other) == table_lookup(ts, other),
    decreases ts.len(),
{
    if ts.len() == 0 {
        let s2 = seq![(code, table)];
        assert(store_table(ts, code, table) =~= s2);
        assert(s2.drop_first() =~= Seq::<(String, Vec<(String, TranslationValue)>)>::empty());
        assert(table_lookup(s2.drop_first(), other) is None);
    } else if ts[0].0@ == code@ {
        let s2 = seq![(code, table)] + ts.drop_first();
        assert(s2[0] == (code, table));
        assert(s2.drop_first() =~= ts.drop_first());
        assert(table_lookup(s2, other) == table_lookup(ts.drop_first(), other));
    } else {
        lemma_translations_load_isolated(ts.drop_first(), code, other, table);
        let s2 = seq![ts[0]] + store_table(ts.drop_first(), code, table);
        assert(s2[0] == ts[0]);
        assert(s2.drop_first() =~= store_table(ts.drop_first(), code, table));
    }
}

/// Law: a redundant duplicate load of the same table is harmless — storing
/// it a second time leaves the cache exactly as after the first store.
pub proof fn lemma_duplicate_load_harmless(
    ts: Seq<(String, Vec<(String, TranslationValue)>)>,
    code: String,
    table: Vec<(String, TranslationValue)>,
)
    ensures
        store_table(store_table(ts, code, table), code, table) == store_table(ts, code, table),
    decreases ts.len(),
{
    if ts.len() == 0 {
        assert(store_table(store_table(ts, code, table), code, table) =~= store_table(
            ts,
            code,
            table,
        ));
    } else if ts[0].0@ == code@ {
        assert(store_table(ts, code, table) == seq![(code, table)] + ts.drop_first());
        assert((seq![(code, table)] + ts.drop_first())[0].0@ == code@);
        assert(store_table(store_table(ts, code, table), code, table) =~= store_table(
            ts,
            code,
            table,
        ));
    } else {
        lemma_duplicate_load_harmless(ts.drop_first(), code, table);
        assert((seq![ts[0]] + store_table(ts.drop_first(), code, table)).drop_first()
            =~= store_table(ts.drop_first(), code, table));
        assert(store_table(store_table(ts, code, table), code, table) =~= seq![ts[0]]
            + store_table(store_table(ts.drop_first(), code, table), code, table));
    }
}

} // verus!
