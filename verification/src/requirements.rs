//! The composition rules a master password has to meet before the vault may
//! be unlocked. The rules gate a screen transition and nothing else: the
//! password is never hashed, derived from or stored.

use vstd::prelude::*;
use crate::charset::{
    is_ascii_lowercase, is_ascii_uppercase, is_special, lowercase, special, uppercase,
};

verus! {

/// The least number of characters a master password must have.
pub const MIN_MASTER_LENGTH: usize = 12;

/// The texts the four rules are shown with.
pub const LENGTH_RULE: &'static str = "At least 12 characters";

pub const LOWERCASE_RULE: &'static str = "Contains a lowercase letter";

pub const UPPERCASE_RULE: &'static str = "Contains an uppercase letter";

pub const SPECIAL_RULE: &'static str = "Contains a special character";

/// Some character of `s` is an ASCII lowercase letter.
pub open spec fn contains_lowercase(s: Seq<char>) -> bool {
    exists|i: int| 0 <= i < s.len() && is_ascii_lowercase(#[trigger] s[i])
}

/// Some character of `s` is an ASCII uppercase letter.
pub open spec fn contains_uppercase(s: Seq<char>) -> bool {
    exists|i: int| 0 <= i < s.len() && is_ascii_uppercase(#[trigger] s[i])
}

/// Some character of `s` is neither an ASCII letter or digit nor whitespace.
pub open spec fn contains_special(s: Seq<char>) -> bool {
    exists|i: int| 0 <= i < s.len() && is_special(#[trigger] s[i])
}

/// `s` is long enough for a master password. The length is counted in
/// characters, not in bytes.
pub open spec fn long_enough(s: Seq<char>) -> bool {
    s.len() >= MIN_MASTER_LENGTH
}

/// `s` meets all four rules.
pub open spec fn meets_requirements(s: Seq<char>) -> bool {
    &&& long_enough(s)
    &&& contains_lowercase(s)
    &&& contains_uppercase(s)
    &&& contains_special(s)
}

/// Whether `candidate` holds an ASCII lowercase letter.
pub fn has_lowercase(candidate: &str) -> (found: bool)
    ensures
        found == contains_lowercase(candidate@),
{
    let mut found: bool = false;
    for c in it: candidate.chars()
        invariant
            it.seq() == candidate@,
            found == contains_lowercase(candidate@.take(it.index())),
    {
        proof {
            lemma_take_step(candidate@, it.index());
        }
        if lowercase(c) {
            found = true;
        }
    }
    assert(candidate@.take(candidate@.len() as int) == candidate@);
    found
}

/// Whether `candidate` holds an ASCII uppercase letter.
pub fn has_uppercase(candidate: &str) -> (found: bool)
    ensures
        found == contains_uppercase(candidate@),
{
    let mut found: bool = false;
    for c in it: candidate.chars()
        invariant
            it.seq() == candidate@,
            found == contains_uppercase(candidate@.take(it.index())),
    {
        proof {
            lemma_take_step(candidate@, it.index());
        }
        if uppercase(c) {
            found = true;
        }
    }
    assert(candidate@.take(candidate@.len() as int) == candidate@);
    found
}

/// Whether `candidate` holds a special character.
pub fn has_special(candidate: &str) -> (found: bool)
    ensures
        found == contains_special(candidate@),
{
    let mut found: bool = false;
    for c in it: candidate.chars()
        invariant
            it.seq() == candidate@,
            found == contains_special(candidate@.take(it.index())),
    {
        proof {
            lemma_take_step(candidate@, it.index());
        }
        if special(c) {
            found = true;
        }
    }
    assert(candidate@.take(candidate@.len() as int) == candidate@);
    found
}

/// Looking at one more character of `s` adds that character's verdict to
/// what the characters before it gave.
proof fn lemma_take_step(s: Seq<char>, n: int)
    requires
        0 <= n < s.len(),
    ensures
        contains_lowercase(s.take(n + 1)) == (contains_lowercase(s.take(n)) || is_ascii_lowercase(
            s[n],
        )),
        contains_uppercase(s.take(n + 1)) == (contains_uppercase(s.take(n)) || is_ascii_uppercase(
            s[n],
        )),
        contains_special(s.take(n + 1)) == (contains_special(s.take(n)) || is_special(s[n])),
{
    let short = s.take(n);
    let long = s.take(n + 1);
    assert(long[n] == s[n]);
    assert forall|i: int| 0 <= i < n implies long[i] == short[i] by {}
    if contains_lowercase(short) {
        let i = choose|i: int| 0 <= i < short.len() && is_ascii_lowercase(#[trigger] short[i]);
        assert(is_ascii_lowercase(long[i]));
    }
    if contains_lowercase(long) {
        let i = choose|i: int| 0 <= i < long.len() && is_ascii_lowercase(#[trigger] long[i]);
        if i < n {
            assert(is_ascii_lowercase(short[i]));
        }
    }
    if contains_uppercase(short) {
        let i = choose|i: int| 0 <= i < short.len() && is_ascii_uppercase(#[trigger] short[i]);
        assert(is_ascii_uppercase(long[i]));
    }
    if contains_uppercase(long) {
        let i = choose|i: int| 0 <= i < long.len() && is_ascii_uppercase(#[trigger] long[i]);
        if i < n {
            assert(is_ascii_uppercase(short[i]));
        }
    }
    if contains_special(short) {
        let i = choose|i: int| 0 <= i < short.len() && is_special(#[trigger] short[i]);
        assert(is_special(long[i]));
    }
    if contains_special(long) {
        let i = choose|i: int| 0 <= i < long.len() && is_special(#[trigger] long[i]);
        if i < n {
            assert(is_special(short[i]));
        }
    }
}

/// `rules` are the four rules in the order they are shown, each with its
/// verdict on `candidate`.
pub open spec fn verdicts_on(rules: [(&'static str, bool); 4], candidate: Seq<char>) -> bool {
    &&& rules[0].0@ == LENGTH_RULE@
    &&& rules[0].1 == long_enough(candidate)
    &&& rules[1].0@ == LOWERCASE_RULE@
    &&& rules[1].1 == contains_lowercase(candidate)
    &&& rules[2].0@ == UPPERCASE_RULE@
    &&& rules[2].1 == contains_uppercase(candidate)
    &&& rules[3].0@ == SPECIAL_RULE@
    &&& rules[3].1 == contains_special(candidate)
}

/// The four rules in the order they are shown, each with its verdict on
/// `candidate`. The verdicts are independent of one another.
pub fn requirements(candidate: &str) -> (rules: [(&'static str, bool); 4])
    ensures
        verdicts_on(rules, candidate@),
{
    [
        (LENGTH_RULE, candidate.unicode_len() >= MIN_MASTER_LENGTH),
        (LOWERCASE_RULE, has_lowercase(candidate)),
        (UPPERCASE_RULE, has_uppercase(candidate)),
        (SPECIAL_RULE, has_special(candidate)),
    ]
}

/// Whether `candidate` meets every rule of [`requirements`].
pub fn all_satisfied(candidate: &str) -> (ok: bool)
    ensures
        ok == meets_requirements(candidate@),
{
    let rules = requirements(candidate);
    rules[0].1 && rules[1].1 && rules[2].1 && rules[3].1
}

} // verus!
