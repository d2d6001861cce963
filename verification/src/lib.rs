//! A path-filtering predicate: given a canonicalized path, its base name and
//! two lists of string patterns (include, exclude), decide whether the path
//! should be kept. Patterns are tried as glob syntax against the canonical
//! path, then as a `*`-suffixed base-name prefix, then as an exact base name.

pub mod filter;
pub mod glob_api;
pub mod matching;
