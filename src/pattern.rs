//! Regular-expression search, provided by `fancy_regex`.
use vstd::prelude::*;

verus! {

#[verifier::external_type_specification]
#[verifier::external_body]
pub struct ExRegex(fancy_regex::Regex);

#[verifier::external_type_specification]
#[verifier::external_body]
pub struct ExRegexError(fancy_regex::Error);

/// Whether `fancy_regex` accepts `pattern` as a regular expression.
pub uninterp spec fn pattern_compiles(pattern: Seq<char>) -> bool;

/// What `fancy_regex` reports when searching `text` for `pattern`:
/// `Some(found)`, or `None` when the search gives up with an error.
pub uninterp spec fn pattern_search(pattern: Seq<char>, text: Seq<char>) -> Option<bool>;

/// A compiled regular expression together with the source it was compiled from.
/// Only `compile` builds one, so `regex` is always the compilation of `source`.
pub(crate) struct CompiledPattern {
    source: String,
    regex: fancy_regex::Regex,
}

impl CompiledPattern {
    /// The pattern this regex was compiled from.
    pub closed spec fn source(&self) -> Seq<char> {
        self.source@
    }
}

/// Relies on `fancy_regex::Regex::new`: it fails exactly on patterns it cannot
/// parse, and the regex it returns keeps the pattern it was given.
#[verifier::external_body]
pub(crate) fn compile(pattern: &str) -> (r: Result<CompiledPattern, fancy_regex::Error>)
    ensures
        r is Ok <==> pattern_compiles(pattern@),
        r matches Ok(c) ==> c.source() == pattern@,
{
    match fancy_regex::Regex::new(pattern) {
        Ok(regex) => Ok(CompiledPattern { source: pattern.to_string(), regex }),
        Err(e) => Err(e),
    }
}

/// Relies on `fancy_regex::Regex::is_match`: an unanchored search of `text`,
/// which may end in an error (for instance when its backtracking limit is hit).
#[verifier::external_body]
pub(crate) fn search(pattern: &CompiledPattern, text: &str) -> (r: Result<bool, fancy_regex::Error>)
    ensures
        match r {
            Ok(found) => pattern_search(pattern.source(), text@) == Some(found),
            Err(_) => pattern_search(pattern.source(), text@) is None,
        },
{
    pattern.regex.is_match(text)
}

} // verus!
