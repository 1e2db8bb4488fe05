//! Selectors: predicates on strings (user names and command lines).
use vstd::prelude::*;
use crate::pattern::{compile, search, pattern_compiles, pattern_search};

verus! {

/// A rule for testing a string.
#[derive(Debug)]
pub enum Selector {
    /// Whole-string equality.
    Exact(String),
    /// Equality with the candidate's leading run of non-whitespace characters.
    FirstToken(String),
    /// Unanchored regular-expression search in the candidate.
    Pattern(String),
}

/// Why a selector could not be evaluated.
#[derive(Debug, Clone, Copy, PartialEq, Eq, Structural)]
pub enum SelectorError {
    /// The pattern of a `Pattern` selector is not a valid regular expression.
    InvalidPattern,
    /// The search for the pattern gave up before reaching a verdict.
    SearchFailed,
}

/// Unicode `White_Space`, as `char::is_whitespace` reports it.
pub open spec fn is_space(c: char) -> bool {
    ('\u{9}' <= c && c <= '\u{d}') || c == ' ' || c == '\u{85}' || c == '\u{a0}'
        || c == '\u{1680}' || ('\u{2000}' <= c && c <= '\u{200a}') || c == '\u{2028}'
        || c == '\u{2029}' || c == '\u{202f}' || c == '\u{205f}' || c == '\u{3000}'
}

/// `word` is the leading run of non-whitespace characters of `s`.
pub open spec fn is_first_token(word: Seq<char>, s: Seq<char>) -> bool {
    &&& word.len() <= s.len()
    &&& s.take(word.len() as int) == word
    &&& forall|i: int| 0 <= i < word.len() ==> !is_space(#[trigger] word[i])
    &&& (word.len() == s.len() || is_space(s[word.len() as int]))
}

/// The verdict of a pattern selector: `None` when the pattern does not compile,
/// otherwise what the search reported (`None` when it gave up).
pub open spec fn verdict(searched: Option<Option<bool>>) -> Result<bool, SelectorError> {
    match searched {
        None => Err(SelectorError::InvalidPattern),
        Some(None) => Err(SelectorError::SearchFailed),
        Some(Some(found)) => Ok(found),
    }
}

/// Turns the outcome of compiling and searching a pattern into a verdict; a pattern
/// that does not compile, or a search that gives up, is an error, never a match.
pub fn pattern_verdict(searched: Option<Option<bool>>) -> (r: Result<bool, SelectorError>)
    ensures
        r == verdict(searched),
{
    match searched {
        None => Err(SelectorError::InvalidPattern),
        Some(None) => Err(SelectorError::SearchFailed),
        Some(Some(found)) => Ok(found),
    }
}

impl Selector {
    /// The verdict of this selector on `candidate`.
    pub open spec fn outcome(&self, candidate: Seq<char>) -> Result<bool, SelectorError> {
        match self {
            Selector::Exact(s) => Ok(candidate == s@),
            Selector::FirstToken(w) => Ok(is_first_token(w@, candidate)),
            Selector::Pattern(p) => verdict(if pattern_compiles(p@) {
                Some(pattern_search(p@, candidate))
            } else {
                None
            }),
        }
    }

    /// The selector accepts `candidate`; a selector that cannot be evaluated
    /// accepts nothing.
    pub open spec fn accepts(&self, candidate: Seq<char>) -> bool {
        self.outcome(candidate) == Ok::<bool, SelectorError>(true)
    }

    /// Evaluates the selector on `other`.
    pub fn check(&self, other: &String) -> (r: Result<bool, SelectorError>)
        ensures
            r == self.outcome(other@),
    {
        match self {
            Selector::Exact(s) => Ok(s.eq(other)),
            Selector::FirstToken(w) => Ok(first_token_is(w.as_str(), other.as_str())),
            Selector::Pattern(p) => {
                let searched = match compile(p.as_str()) {
                    Err(_) => None,
                    Ok(compiled) => match search(&compiled, other.as_str()) {
                        Ok(found) => Some(Some(found)),
                        Err(_) => Some(None),
                    },
                };
                pattern_verdict(searched)
            },
        }
    }
}

/// Whether `c` is a whitespace character.
pub fn space_char(c: char) -> (r: bool)
    ensures
        r == is_space(c),
{
    ('\u{9}' <= c && c <= '\u{d}') || c == ' ' || c == '\u{85}' || c == '\u{a0}'
        || c == '\u{1680}' || ('\u{2000}' <= c && c <= '\u{200a}') || c == '\u{2028}'
        || c == '\u{2029}' || c == '\u{202f}' || c == '\u{205f}' || c == '\u{3000}'
}

/// Whether `word` is the leading run of non-whitespace characters of `s`.
pub fn first_token_is(word: &str, s: &str) -> (r: bool)
    ensures
        r == is_first_token(word@, s@),
{
    let n = word.unicode_len();
    let m = s.unicode_len();
    if n > m {
        return false;
    }
    let mut i: usize = 0;
    while i < n
        invariant
            n == word@.len(),
            m == s@.len(),
            n <= m,
            i <= n,
            forall|j: int| 0 <= j < i ==> s@[j] == word@[j] && !is_space(#[trigger] word@[j]),
        decreases n - i,
    {
        let c = word.get_char(i);
        if space_char(c) || s.get_char(i) != c {
            assert(!is_first_token(word@, s@)) by {
                if s@.take(n as int) == word@ {
                    assert(s@.take(n as int)[i as int] == s@[i as int]);
                }
            }
            return false;
        }
        i = i + 1;
    }
    assert(s@.take(n as int) =~= word@);
    n == m || space_char(s.get_char(n))
}

/// Exact selectors accept their own string and nothing else.
pub proof fn lemma_exact_accepts_only_itself(s: String, candidate: Seq<char>)
    ensures
        Selector::Exact(s).accepts(candidate) <==> candidate == s@,
{
}

/// A first-token selector accepts any candidate that starts with its word followed
/// by whitespace or the end, whatever follows; and it rejects a candidate whose
/// leading token is another word.
pub proof fn lemma_first_token_ignores_rest(word: String, other: Seq<char>, rest: Seq<char>)
    requires
        word@.len() > 0,
        forall|i: int| 0 <= i < word@.len() ==> !is_space(#[trigger] word@[i]),
        forall|i: int| 0 <= i < other.len() ==> !is_space(#[trigger] other[i]),
        rest.len() == 0 || is_space(rest[0]),
    ensures
        Selector::FirstToken(word).accepts(word@ + rest),
        other != word@ ==> !Selector::FirstToken(word).accepts(other + rest),
{
    let w = word@;
    assert((w + rest).take(w.len() as int) =~= w);
    if w.len() < (w + rest).len() {
        assert((w + rest)[w.len() as int] == rest[0]);
    }
    if other != w && Selector::FirstToken(word).accepts(other + rest) {
        let c = other + rest;
        assert(c.take(w.len() as int) == w);
        if w.len() < other.len() {
            assert(c[w.len() as int] == other[w.len() as int]);
        } else if other.len() < w.len() {
            assert(c[other.len() as int] == w[other.len() as int]);
            if rest.len() == 0 {
                assert(c.len() == other.len());
            } else {
                assert(c[other.len() as int] == rest[0]);
            }
        } else {
            assert(other =~= c.take(w.len() as int));
        }
    }
}

} // verus!
