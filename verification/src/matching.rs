//! The pattern dialect: a single pattern matches a path under one of three
//! rules, tried in order — glob syntax against the canonical path string, a
//! `*`-suffixed literal prefix against the base name, exact equality with the
//! base name. Exclude patterns use the glob rule alone.

use vstd::prelude::*;
use vstd::string::StrSliceExecFns;

use crate::glob_api::{glob_match, glob_matched, glob_syntax_ok};

verus! {

/// The prefix rule: a pattern ending in `*` matches a base name that starts
/// with the literal part before the `*`.
pub open spec fn prefix_rule_matches(pattern: Seq<char>, file_name: Seq<char>) -> bool {
    &&& pattern.len() > 0
    &&& pattern.last() == '*'
    &&& pattern.drop_last().is_prefix_of(file_name)
}

/// An include pattern matches if any of the three rules does: glob against the
/// canonical path, the prefix rule against the base name, or exact equality
/// with the base name.
pub open spec fn include_pattern_matches(
    pattern: Seq<char>,
    canonical: Seq<char>,
    file_name: Seq<char>,
) -> bool {
    ||| glob_syntax_ok(pattern) && glob_matched(pattern, canonical)
    ||| prefix_rule_matches(pattern, file_name)
    ||| pattern == file_name
}

/// An exclude pattern matches under the glob rule alone; one that is not
/// valid glob syntax matches nothing.
pub open spec fn exclude_pattern_matches(pattern: Seq<char>, canonical: Seq<char>) -> bool {
    glob_syntax_ok(pattern) && glob_matched(pattern, canonical)
}

/// Character-for-character string equality.
pub fn str_eq(a: &str, b: &str) -> (r: bool)
    ensures
        r == (a@ == b@),
{
    let a_len = a.unicode_len();
    let b_len = b.unicode_len();
    if a_len != b_len {
        return false;
    }
    let mut i: usize = 0;
    while i < a_len
        invariant
            i <= a_len,
            a_len == a@.len(),
            a_len == b@.len(),
            forall|j: int| 0 <= j < i ==> a@[j] == b@[j],
        decreases a_len - i,
    {
        if a.get_char(i) != b.get_char(i) {
            return false;
        }
        i += 1;
    }
    proof {
        assert(a@ =~= b@);
    }
    true
}

/// Whether `s` starts with the string `prefix`.
pub fn str_starts_with(s: &str, prefix: &str) -> (r: bool)
    ensures
        r == prefix@.is_prefix_of(s@),
{
    let p_len = prefix.unicode_len();
    let s_len = s.unicode_len();
    if p_len > s_len {
        return false;
    }
    let mut i: usize = 0;
    while i < p_len
        invariant
            i <= p_len,
            p_len == prefix@.len(),
            s_len == s@.len(),
            p_len <= s_len,
            forall|j: int| 0 <= j < i ==> prefix@[j] == s@[j],
        decreases p_len - i,
    {
        if prefix.get_char(i) != s.get_char(i) {
            proof {
                assert(!prefix@.is_prefix_of(s@)) by {
                    if prefix@.is_prefix_of(s@) {
                        assert(prefix@[i as int] == s@.subrange(0, p_len as int)[i as int]);
                    }
                }
            }
            return false;
        }
        i += 1;
    }
    proof {
        assert(prefix@ =~= s@.subrange(0, p_len as int));
    }
    true
}

/// Whether one include pattern matches, trying the three rules in order.
pub fn matches_include_pattern(pattern: &str, canonical: &str, file_name: &str) -> (r: bool)
    ensures
        r == include_pattern_matches(pattern@, canonical@, file_name@),
{
    match glob_match(pattern, canonical) {
        Some(true) => true,
        _ => {
            let p_len = pattern.unicode_len();
            if p_len > 0 && pattern.get_char(p_len - 1) == '*' {
                let prefix = pattern.substring_char(0, p_len - 1);
                proof {
                    assert(prefix@ =~= pattern@.drop_last());
                }
                if str_starts_with(file_name, prefix) {
                    return true;
                }
            }
            str_eq(file_name, pattern)
        },
    }
}

/// Whether one exclude pattern matches, under the glob rule alone.
pub fn matches_exclude_pattern(pattern: &str, canonical: &str) -> (r: bool)
    ensures
        r == exclude_pattern_matches(pattern@, canonical@),
{
    match glob_match(pattern, canonical) {
        Some(true) => true,
        _ => false,
    }
}

/// A pattern that equals the base name matches as an include pattern, whatever
/// the glob outcome, in particular for a pattern with no `*` in it.
pub proof fn lemma_exact_name_matches(pattern: Seq<char>, canonical: Seq<char>, file_name: Seq<char>)
    requires
        !pattern.contains('*'),
        pattern == file_name,
    ensures
        include_pattern_matches(pattern, canonical, file_name),
{
}

/// A pattern ending in `*` matches, as an include pattern, every base name
/// that starts with the literal part before the `*`, whatever the glob
/// outcome.
pub proof fn lemma_prefix_wildcard_matches(
    pattern: Seq<char>,
    canonical: Seq<char>,
    file_name: Seq<char>,
)
    requires
        pattern.len() > 0,
        pattern.last() == '*',
        pattern.drop_last().is_prefix_of(file_name),
    ensures
        include_pattern_matches(pattern, canonical, file_name),
{
}

} // verus!
