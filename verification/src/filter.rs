//! The filtering decision: whether a path is kept, given its canonical form,
//! its base name, the include and exclude pattern lists, and the priority
//! flag that settles a path matched by both lists.

use vstd::prelude::*;

use crate::matching::{
    exclude_pattern_matches, include_pattern_matches, matches_exclude_pattern,
    matches_include_pattern,
};

verus! {

/// Some pattern in the include list matches the path.
pub open spec fn any_include_matches(
    patterns: Seq<String>,
    canonical: Seq<char>,
    file_name: Seq<char>,
) -> bool {
    exists|i: int| 0 <= i < patterns.len() && include_pattern_matches(patterns[i]@, canonical, file_name)
}

/// Some pattern in the exclude list matches the path.
pub open spec fn any_exclude_matches(patterns: Seq<String>, canonical: Seq<char>) -> bool {
    exists|i: int| 0 <= i < patterns.len() && exclude_pattern_matches(patterns[i]@, canonical)
}

/// The decision table. A path matched by both lists goes by the priority
/// flag; matched only by the include list it is kept; matched only by the
/// exclude list it is dropped; matched by neither it is kept exactly when the
/// include list is empty.
pub open spec fn decision(
    included: bool,
    excluded: bool,
    include_list_empty: bool,
    include_priority: bool,
) -> bool {
    if included && excluded {
        include_priority
    } else if included {
        true
    } else if excluded {
        false
    } else {
        include_list_empty
    }
}

/// The whole predicate: a path that could not be canonicalized (`None`) is
/// never kept; otherwise the decision table is applied to the two match
/// outcomes.
pub open spec fn spec_should_include(
    canonical: Option<Seq<char>>,
    file_name: Seq<char>,
    include_patterns: Seq<String>,
    exclude_patterns: Seq<String>,
    include_priority: bool,
) -> bool {
    match canonical {
        None => false,
        Some(c) => decision(
            any_include_matches(include_patterns, c, file_name),
            any_exclude_matches(exclude_patterns, c),
            include_patterns.len() == 0,
            include_priority,
        ),
    }
}

/// Whether any include pattern matches the canonical path or the base name.
pub fn matches_any_include_pattern(
    patterns: &[String],
    canonical: &str,
    file_name: &str,
) -> (r: bool)
    ensures
        r == any_include_matches(patterns@, canonical@, file_name@),
{
    let n = patterns.len();
    let mut i: usize = 0;
    while i < n
        invariant
            i <= n,
            n == patterns@.len(),
            forall|j: int|
                0 <= j < i ==> !include_pattern_matches(patterns@[j]@, canonical@, file_name@),
        decreases n - i,
    {
        if matches_include_pattern(patterns[i].as_str(), canonical, file_name) {
            return true;
        }
        i += 1;
    }
    false
}

/// Whether any exclude pattern matches the canonical path.
pub fn matches_any_exclude_pattern(patterns: &[String], canonical: &str) -> (r: bool)
    ensures
        r == any_exclude_matches(patterns@, canonical@),
{
    let n = patterns.len();
    let mut i: usize = 0;
    while i < n
        invariant
            i <= n,
            n == patterns@.len(),
            forall|j: int| 0 <= j < i ==> !exclude_pattern_matches(patterns@[j]@, canonical@),
        decreases n - i,
    {
        if matches_exclude_pattern(patterns[i].as_str(), canonical) {
            return true;
        }
        i += 1;
    }
    false
}

/// Whether a path should be kept. `canonical_path` is the canonical absolute
/// form of the path as a string, or `None` where the path could not be
/// canonicalized (it does not exist, or resolution failed); `file_name` is the
/// base name of the original path, the empty string where it has none.
pub fn should_include_file(
    canonical_path: Option<&str>,
    file_name: &str,
    include_patterns: &[String],
    exclude_patterns: &[String],
    include_priority: bool,
) -> (r: bool)
    ensures
        r == spec_should_include(
            canonical_path.deep_view(),
            file_name@,
            include_patterns@,
            exclude_patterns@,
            include_priority,
        ),
{
    let canonical = match canonical_path {
        Some(c) => c,
        None => {
            return false;
        },
    };
    let included = matches_any_include_pattern(include_patterns, canonical, file_name);
    let excluded = matches_any_exclude_pattern(exclude_patterns, canonical);
    if included && excluded {
        include_priority
    } else if included {
        true
    } else if excluded {
        false
    } else {
        include_patterns.len() == 0
    }
}

/// With no include and no exclude patterns, every canonicalized path is kept.
pub proof fn lemma_empty_pattern_lists_keep(
    canonical: Seq<char>,
    file_name: Seq<char>,
    include_priority: bool,
)
    ensures
        spec_should_include(
            Some(canonical),
            file_name,
            Seq::<String>::empty(),
            Seq::<String>::empty(),
            include_priority,
        ),
{
}

/// With include patterns present but none matching, and no exclude patterns,
/// the path is dropped.
pub proof fn lemma_unmatched_includes_drop(
    canonical: Seq<char>,
    file_name: Seq<char>,
    include_patterns: Seq<String>,
    include_priority: bool,
)
    requires
        include_patterns.len() > 0,
        forall|i: int|
            0 <= i < include_patterns.len() ==> !include_pattern_matches(
                include_patterns[i]@,
                canonical,
                file_name,
            ),
    ensures
        !spec_should_include(
            Some(canonical),
            file_name,
            include_patterns,
            Seq::<String>::empty(),
            include_priority,
        ),
{
}

/// A path matched by some include pattern and some exclude pattern goes by
/// the priority flag alone.
pub proof fn lemma_both_match_goes_by_priority(
    canonical: Seq<char>,
    file_name: Seq<char>,
    include_patterns: Seq<String>,
    exclude_patterns: Seq<String>,
    include_priority: bool,
)
    requires
        any_include_matches(include_patterns, canonical, file_name),
        any_exclude_matches(exclude_patterns, canonical),
    ensures
        spec_should_include(
            Some(canonical),
            file_name,
            include_patterns,
            exclude_patterns,
            include_priority,
        ) == include_priority,
{
}

/// A path matched by some exclude pattern and by no include pattern is
/// dropped, whether the include list is empty or merely non-matching.
pub proof fn lemma_only_exclude_drops(
    canonical: Seq<char>,
    file_name: Seq<char>,
    include_patterns: Seq<String>,
    exclude_patterns: Seq<String>,
    include_priority: bool,
)
    requires
        !any_include_matches(include_patterns, canonical, file_name),
        any_exclude_matches(exclude_patterns, canonical),
    ensures
        !spec_should_include(
            Some(canonical),
            file_name,
            include_patterns,
            exclude_patterns,
            include_priority,
        ),
{
}

/// A path that could not be canonicalized is never kept, whatever the pattern
/// lists and the priority flag say.
pub proof fn lemma_unresolved_path_drops(
    file_name: Seq<char>,
    include_patterns: Seq<String>,
    exclude_patterns: Seq<String>,
    include_priority: bool,
)
    ensures
        !spec_should_include(
            None,
            file_name,
            include_patterns,
            exclude_patterns,
            include_priority,
        ),
{
}

} // verus!
