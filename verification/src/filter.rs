//! The filter-key naming convention: a small parser turning stringly-typed
//! keys (`q`, `f-email`, `f-like-email`, `f-date-from-created_at`,
//! `f-date-to-created_at`) into a closed, typed classification, so that
//! operator dispatch in the engine is a tagged match and not string
//! matching scattered through the code.

use vstd::prelude::*;

verus! {

/// `p` is a prefix of `s`.
pub open spec fn starts_with(s: Seq<char>, p: Seq<char>) -> bool {
    s.len() >= p.len() && s.subrange(0, p.len() as int) == p
}

/// Executable prefix test matching [`starts_with`].
pub fn str_starts_with(s: &str, p: &str) -> (r: bool)
    ensures
        r == starts_with(s@, p@),
{
    let slen = s.unicode_len();
    let plen = p.unicode_len();
    if plen > slen {
        return false;
    }
    let head = s.substring_char(0, plen);
    crate::text::str_eq(head, p)
}

/// Ghost classification of a filter key.
pub enum FilterClass {
    /// The reserved free-text search key `q`.
    Search,
    /// `f-<field>`: exact match on `field`.
    Exact(Seq<char>),
    /// `f-like-<field>`: case-insensitive substring match on `field`.
    Like(Seq<char>),
    /// `f-date-from-<field>`: inclusive lower date bound on `field`.
    DateFrom(Seq<char>),
    /// `f-date-to-<field>`: inclusive upper date bound on `field`.
    DateTo(Seq<char>),
    /// No convention matches.
    Unknown,
}

/// What a filter key means. The specific prefixes win over the bare `f-`
/// prefix, and a prefix with nothing after it means nothing.
pub open spec fn spec_classify(key: Seq<char>) -> FilterClass {
    if key == "q"@ {
        FilterClass::Search
    } else if starts_with(key, "f-date-from-"@) && key.len() > "f-date-from-"@.len() {
        FilterClass::DateFrom(key.skip("f-date-from-"@.len() as int))
    } else if starts_with(key, "f-date-to-"@) && key.len() > "f-date-to-"@.len() {
        FilterClass::DateTo(key.skip("f-date-to-"@.len() as int))
    } else if starts_with(key, "f-like-"@) && key.len() > "f-like-"@.len() {
        FilterClass::Like(key.skip("f-like-"@.len() as int))
    } else if starts_with(key, "f-"@) && key.len() > "f-"@.len() {
        FilterClass::Exact(key.skip("f-"@.len() as int))
    } else {
        FilterClass::Unknown
    }
}

/// A parsed filter key.
#[derive(Debug, Clone, PartialEq, Eq)]
pub enum FilterKey {
    /// The reserved free-text search key `q`.
    Search,
    /// Exact match on the named field.
    Exact(String),
    /// Case-insensitive substring match on the named field.
    Like(String),
    /// Inclusive lower date bound on the named field.
    DateFrom(String),
    /// Inclusive upper date bound on the named field.
    DateTo(String),
    /// No convention matches.
    Unknown,
}

impl View for FilterKey {
    type V = FilterClass;

    open spec fn view(&self) -> FilterClass {
        match self {
            FilterKey::Search => FilterClass::Search,
            FilterKey::Exact(f) => FilterClass::Exact(f@),
            FilterKey::Like(f) => FilterClass::Like(f@),
            FilterKey::DateFrom(f) => FilterClass::DateFrom(f@),
            FilterKey::DateTo(f) => FilterClass::DateTo(f@),
            FilterKey::Unknown => FilterClass::Unknown,
        }
    }
}

/// Parses a parameter key per the filter naming convention.
pub fn parse_filter_key(key: &str) -> (r: FilterKey)
    ensures
        r@ == spec_classify(key@),
{
    proof {
        reveal_strlit("q");
        reveal_strlit("f-date-from-");
        reveal_strlit("f-date-to-");
        reveal_strlit("f-like-");
        reveal_strlit("f-");
    }
    let len = key.unicode_len();
    if crate::text::str_eq(key, "q") {
        return FilterKey::Search;
    }
    if str_starts_with(key, "f-date-from-") && len > 12 {
        let field = key.substring_char(12, len);
        return FilterKey::DateFrom(String::from_str(field));
    }
    if str_starts_with(key, "f-date-to-") && len > 10 {
        let field = key.substring_char(10, len);
        return FilterKey::DateTo(String::from_str(field));
    }
    if str_starts_with(key, "f-like-") && len > 7 {
        let field = key.substring_char(7, len);
        return FilterKey::Like(String::from_str(field));
    }
    if str_starts_with(key, "f-") && len > 2 {
        let field = key.substring_char(2, len);
        return FilterKey::Exact(String::from_str(field));
    }
    FilterKey::Unknown
}

} // verus!
