//! Placeholder substitution in notification templates: every occurrence of a
//! pattern is replaced, left to right, as `str::replace` does it.

use crate::text::{chars_of, matches_at, string_from_chars};
use vstd::prelude::*;

verus! {

/// `s` with every occurrence of `pat` replaced by `sub`, scanning left to
/// right over non-overlapping occurrences.  An empty pattern leaves `s`
/// unchanged.
pub open spec fn replace_seq(s: Seq<char>, pat: Seq<char>, sub: Seq<char>) -> Seq<char>
    decreases s.len(),
{
    if pat.len() == 0 || s.len() < pat.len() {
        s
    } else if s.subrange(0, pat.len() as int) == pat {
        sub + replace_seq(s.skip(pat.len() as int), pat, sub)
    } else {
        seq![s[0]] + replace_seq(s.skip(1), pat, sub)
    }
}

fn copy_tail(s: &Vec<char>, i: usize) -> (r: Vec<char>)
    requires
        i <= s@.len(),
    ensures
        r@ == s@.skip(i as int),
{
    let mut r: Vec<char> = Vec::new();
    let mut j: usize = i;
    while j < s.len()
        invariant
            i <= j <= s@.len(),
            r@ == s@.subrange(i as int, j as int),
        decreases s@.len() - j,
    {
        r.push(s[j]);
        proof {
            assert(s@.subrange(i as int, j as int).push(s@[j as int]) =~= s@.subrange(
                i as int,
                j as int + 1,
            ));
        }
        j += 1;
    }
    proof {
        assert(s@.subrange(i as int, s@.len() as int) =~= s@.skip(i as int));
    }
    r
}

fn replace_from(s: &Vec<char>, i: usize, pat: &Vec<char>, sub: &Vec<char>) -> (r: Vec<char>)
    requires
        i <= s@.len(),
        pat@.len() > 0,
    ensures
        r@ == replace_seq(s@.skip(i as int), pat@, sub@),
    decreases s@.len() - i,
{
    let ghost tail = s@.skip(i as int);
    if s.len() - i < pat.len() {
        let r = copy_tail(s, i);
        proof {
            assert(replace_seq(tail, pat@, sub@) == tail);
        }
        r
    } else if matches_at(s, pat, i) {
        proof {
            assert(tail.subrange(0, pat@.len() as int) =~= s@.subrange(
                i as int,
                i as int + pat@.len() as int,
            ));
        }
        let mut out = copy_tail(sub, 0);
        proof {
            assert(sub@.skip(0) =~= sub@);
        }
        let mut rest = replace_from(s, i + pat.len(), pat, sub);
        out.append(&mut rest);
        proof {
            assert(tail.skip(pat@.len() as int) =~= s@.skip(i as int + pat@.len() as int));
        }
        out
    } else {
        proof {
            assert(tail.subrange(0, pat@.len() as int) =~= s@.subrange(
                i as int,
                i as int + pat@.len() as int,
            ));
        }
        let mut out: Vec<char> = Vec::new();
        out.push(s[i]);
        let mut rest = replace_from(s, i + 1, pat, sub);
        out.append(&mut rest);
        proof {
            assert(tail[0] == s@[i as int]);
            assert(tail.skip(1) =~= s@.skip(i as int + 1));
            assert(out@ =~= seq![tail[0]] + replace_seq(tail.skip(1), pat@, sub@));
        }
        out
    }
}

/// Replaces every occurrence of `pat` in `s` by `sub`, as `str::replace`
/// does for a non-empty pattern.
pub fn replace_all(s: &str, pat: &str, sub: &str) -> (r: String)
    ensures
        r@ == replace_seq(s@, pat@, sub@),
{
    let sv = chars_of(s);
    let pv = chars_of(pat);
    if pv.len() == 0 {
        return s.to_owned();
    }
    let bv = chars_of(sub);
    let out = replace_from(&sv, 0, &pv, &bv);
    proof {
        assert(sv@.skip(0) =~= sv@);
    }
    string_from_chars(&out)
}

} // verus!
