//! Spam scoring: a fixed rule table of phrases with weights; a message whose
//! case-folded text accumulates enough weight counts as spam.

use crate::text::{chars_of, contains_sub, has_substring, lower_of, to_lowercase};
use vstd::prelude::*;

verus! {

/// The score at which a message counts as spam.
pub const SPAM_SCORE: i32 = 10;

/// The rule table: a phrase and the weight it contributes when the
/// case-folded text contains it.
pub open spec fn spam_rules() -> Seq<(Seq<char>, int)> {
    seq![
        ("удалёнка"@, 3int),
        ("удалённый"@, 3int),
        ("заработок"@, 3int),
        ("от 50$"@, 2int),
        ("от 50 баксов"@, 2int),
        ("от 100$"@, 3int),
        ("от 100 баксов"@, 3int),
        ("2-3 часа"@, 2int),
        ("2-3 ч"@, 2int),
        ("пиши в лс"@, 4int),
        ("пишите в лс"@, 4int),
        ("пиcaть в лc"@, 4int),
        ("легально"@, 2int),
        ("безопасно"@, 2int),
        ("законно"@, 2int),
        ("главное желание"@, 3int),
        ("всё просто"@, 3int),
        ("подработку"@, 4int),
        ("подработка"@, 4int),
        ("полностью легально"@, 2int),
        ("проводится обучение"@, 2int),
    ]
}

/// The weight one rule contributes to a text.
pub open spec fn rule_score(s: Seq<char>, rule: (Seq<char>, int)) -> int {
    if has_substring(s, rule.0) {
        rule.1
    } else {
        0
    }
}

/// The total weight a rule list contributes to a text.
pub open spec fn score_of(s: Seq<char>, rules: Seq<(Seq<char>, int)>) -> int
    decreases rules.len(),
{
    if rules.len() == 0 {
        0
    } else {
        rule_score(s, rules[0]) + score_of(s, rules.drop_first())
    }
}

/// The spam score of a case-folded text under the fixed rule table.
pub open spec fn spam_score_spec(s: Seq<char>) -> int {
    score_of(s, spam_rules())
}

fn spam_rules_exec() -> (r: Vec<(Vec<char>, i32)>)
    ensures
        r@.map_values(|p: (Vec<char>, i32)| (p.0@, p.1 as int)) == spam_rules(),
        forall|k: int| 0 <= k < r@.len() ==> 0 <= (#[trigger] r@[k]).1 <= 4,
{
    let mut rules: Vec<(Vec<char>, i32)> = Vec::new();
    rules.push((chars_of("удалёнка"), 3));
    rules.push((chars_of("удалённый"), 3));
    rules.push((chars_of("заработок"), 3));
    rules.push((chars_of("от 50$"), 2));
    rules.push((chars_of("от 50 баксов"), 2));
    rules.push((chars_of("от 100$"), 3));
    rules.push((chars_of("от 100 баксов"), 3));
    rules.push((chars_of("2-3 часа"), 2));
    rules.push((chars_of("2-3 ч"), 2));
    rules.push((chars_of("пиши в лс"), 4));
    rules.push((chars_of("пишите в лс"), 4));
    rules.push((chars_of("пиcaть в лc"), 4));
    rules.push((chars_of("легально"), 2));
    rules.push((chars_of("безопасно"), 2));
    rules.push((chars_of("законно"), 2));
    rules.push((chars_of("главное желание"), 3));
    rules.push((chars_of("всё просто"), 3));
    rules.push((chars_of("подработку"), 4));
    rules.push((chars_of("подработка"), 4));
    rules.push((chars_of("полностью легально"), 2));
    rules.push((chars_of("проводится обучение"), 2));
    proof {
        assert(rules@.map_values(|p: (Vec<char>, i32)| (p.0@, p.1 as int)) =~= spam_rules());
    }
    rules
}

/// The spam score of a text: the summed weights of the rules whose phrase
/// occurs in the case-folded text.
pub fn spam_score(text: &str) -> (r: i32)
    ensures
        r == spam_score_spec(lower_of(text@)),
        0 <= r <= 84,
{
    let lowered = to_lowercase(text);
    let ghost s = lower_of(text@);
    let lv = chars_of(lowered.as_str());
    let rules = spam_rules_exec();
    let ghost rv = rules@.map_values(|p: (Vec<char>, i32)| (p.0@, p.1 as int));
    let mut total: i32 = 0;
    let mut i: usize = 0;
    proof {
        assert(rv.skip(0) =~= rv);
    }
    while i < rules.len()
        invariant
            0 <= i <= rules@.len(),
            rv == rules@.map_values(|p: (Vec<char>, i32)| (p.0@, p.1 as int)),
            rv == spam_rules(),
            lv@ == s,
            forall|k: int| 0 <= k < rules@.len() ==> 0 <= (#[trigger] rules@[k]).1 <= 4,
            0 <= total <= 4 * i,
            score_of(s, rv) == total + score_of(s, rv.skip(i as int)),
        decreases rules@.len() - i,
    {
        proof {
            assert(rv.skip(i as int).drop_first() =~= rv.skip(i as int + 1));
            assert(rv.skip(i as int)[0] == rv[i as int]);
            assert(rv[i as int] == (rules@[i as int].0@, rules@[i as int].1 as int));
        }
        if contains_sub(&lv, &rules[i].0) {
            total += rules[i].1;
        }
        i += 1;
    }
    proof {
        assert(rv.skip(rv.len() as int) =~= Seq::<(Seq<char>, int)>::empty());
        assert(rules@.len() == 21);
    }
    total
}

/// Whether a message counts as spam: its score reaches the fixed threshold.
pub fn is_spam_by_score(text: &str) -> (r: bool)
    ensures
        r == (spam_score_spec(lower_of(text@)) >= 10),
{
    spam_score(text) >= SPAM_SCORE
}

} // verus!
