//! Regular expressions. The `regex` crate compiles and runs them; nothing of
//! what it does is proved here, and what this module states of it is what
//! the rest of the library takes on trust.

use vstd::prelude::*;

verus! {

#[verifier::external_type_specification]
#[verifier::external_body]
pub struct ExTextRegex(regex::Regex);

#[verifier::external_type_specification]
#[verifier::external_body]
pub struct ExByteRegex(regex::bytes::Regex);

/// Whether `regex::Regex::new` accepts `pattern`.
pub uninterp spec fn text_regex_compiles(pattern: Seq<char>) -> bool;

/// Whether `regex::Regex::is_match`, for the expression compiled from
/// `pattern`, finds a match anywhere in `haystack`.
pub uninterp spec fn text_regex_is_match(pattern: Seq<char>, haystack: Seq<char>) -> bool;

/// Whether `regex::bytes::Regex::new` accepts `pattern`.
pub uninterp spec fn byte_regex_compiles(pattern: Seq<char>) -> bool;

/// The index at which the match that `regex::bytes::Regex::find` returns
/// begins, for the expression compiled from `pattern`; `None` where it finds
/// no match in `haystack`.
pub uninterp spec fn byte_regex_find(pattern: Seq<char>, haystack: Seq<u8>) -> Option<usize>;

/// An expression compiled for matching text, kept with the pattern it was
/// compiled from. `compile` is the only place that makes one.
pub(crate) struct LineMatcher {
    source: String,
    compiled: regex::Regex,
}

impl LineMatcher {
    /// The pattern the expression was compiled from.
    pub closed spec fn pattern(&self) -> Seq<char> {
        self.source@
    }

    /// Calls `regex::Regex::new`. Claims that it returns a matcher exactly
    /// where the crate accepts the pattern, and that the matcher remembers
    /// the pattern.
    #[verifier::external_body]
    pub(crate) fn compile(pattern: &str) -> (r: Option<LineMatcher>)
        ensures
            r is Some <==> text_regex_compiles(pattern@),
            r matches Some(m) ==> m.pattern() == pattern@,
    {
        match regex::Regex::new(pattern) {
            Ok(compiled) => Some(LineMatcher { source: pattern.to_owned(), compiled }),
            Err(_) => None,
        }
    }

    /// Calls `regex::Regex::is_match`. Claims that the answer depends on the
    /// pattern and the line alone.
    #[verifier::external_body]
    pub(crate) fn is_match(&self, line: &str) -> (r: bool)
        ensures
            r == text_regex_is_match(self.pattern(), line@),
    {
        self.compiled.is_match(line)
    }
}

/// An expression compiled for matching raw bytes, kept with the pattern it
/// was compiled from. `compile` is the only place that makes one.
pub(crate) struct ByteMatcher {
    source: String,
    compiled: regex::bytes::Regex,
}

impl ByteMatcher {
    /// The pattern the expression was compiled from.
    pub closed spec fn pattern(&self) -> Seq<char> {
        self.source@
    }

    /// Calls `regex::bytes::Regex::new`. Claims that it returns a matcher
    /// exactly where the crate accepts the pattern, and that the matcher
    /// remembers the pattern.
    #[verifier::external_body]
    pub(crate) fn compile(pattern: &str) -> (r: Option<ByteMatcher>)
        ensures
            r is Some <==> byte_regex_compiles(pattern@),
            r matches Some(m) ==> m.pattern() == pattern@,
    {
        match regex::bytes::Regex::new(pattern) {
            Ok(compiled) => Some(ByteMatcher { source: pattern.to_owned(), compiled }),
            Err(_) => None,
        }
    }

    /// Calls `regex::bytes::Regex::find` and `regex::bytes::Match::start`.
    /// Claims that the index at which the first match begins depends on the
    /// pattern and the bytes alone.
    #[verifier::external_body]
    pub(crate) fn find_start(&self, haystack: &[u8]) -> (r: Option<usize>)
        ensures
            r == byte_regex_find(self.pattern(), haystack@),
    {
        match self.compiled.find(haystack) {
            Some(found) => Some(found.start()),
            None => None,
        }
    }
}

} // verus!
