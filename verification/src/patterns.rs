//! Regular expressions of the `regex` crate, compiled once and matched
//! against names.
//!
//! What a pattern matches is the `regex` crate's to decide; the results are
//! named after the pattern and the text, and the library's contracts speak
//! of those names.

use regex::Regex;
use vstd::prelude::*;

verus! {

#[verifier::external_type_specification]
#[verifier::external_body]
pub struct ExRegex(Regex);

#[verifier::external_type_specification]
#[verifier::external_body]
pub struct ExRegexError(regex::Error);

/// Whether `Regex::new` accepts the pattern.
pub uninterp spec fn regex_is_valid(pattern: Seq<char>) -> bool;

/// The capture groups of the first match of the pattern in the text, in
/// group order (group 0 is the whole match), each where it took part; `None`
/// where the pattern does not match.
pub uninterp spec fn regex_captures(pattern: Seq<char>, haystack: Seq<char>) -> Option<
    Seq<Option<Seq<char>>>,
>;

/// Whether the pattern matches somewhere in the text.
pub uninterp spec fn regex_is_match(pattern: Seq<char>, haystack: Seq<char>) -> bool;

/// The text with the first match of the pattern replaced by the
/// replacement, its `$n` standing for group `n`.
pub uninterp spec fn regex_replace(
    pattern: Seq<char>,
    haystack: Seq<char>,
    replacement: Seq<char>,
) -> Seq<char>;

/// The view of captured groups: each group's text, where it took part.
pub open spec fn groups_view(groups: Option<Vec<Option<String>>>) -> Option<Seq<Option<Seq<char>>>> {
    match groups {
        Some(v) => Some(
            v@.map_values(
                |g: Option<String>|
                    match g {
                        Some(s) => Some(s@),
                        None => None,
                    },
            ),
        ),
        None => None,
    }
}

/// `Regex::new`: compiles the pattern, where it is a valid regular
/// expression.
#[verifier::external_body]
fn regex_new(pattern: &str) -> (res: Result<Regex, regex::Error>)
    ensures
        res is Ok <==> regex_is_valid(pattern@),
{
    Regex::new(pattern)
}

/// A compiled regular expression, and the pattern it was compiled from.
pub struct Pattern {
    regex: Regex,
    source: Ghost<Seq<char>>,
}

impl Pattern {
    /// The pattern the expression was compiled from.
    pub closed spec fn source(&self) -> Seq<char> {
        self.source@
    }

    /// Compiles `pattern`; fails exactly where `regex` refuses it.
    pub fn new(pattern: &str) -> (res: Result<Pattern, regex::Error>)
        ensures
            res is Ok <==> regex_is_valid(pattern@),
            res matches Ok(p) ==> p.source() == pattern@,
    {
        match regex_new(pattern) {
            Ok(regex) => Ok(Pattern { regex: regex, source: Ghost(pattern@) }),
            Err(e) => Err(e),
        }
    }
}

/// `Regex::captures`: the groups of the first match, each group's text where
/// it took part (the result is a function of the pattern the expression was
/// compiled from and of the text).
#[verifier::external_body]
pub(crate) fn pattern_captures(p: &Pattern, haystack: &str) -> (res: Option<Vec<Option<String>>>)
    ensures
        groups_view(res) == regex_captures(p.source(), haystack@),
{
    match p.regex.captures(haystack) {
        None => None,
        Some(c) => {
            let mut groups = Vec::new();
            for m in c.iter() {
                groups.push(m.map(|m| m.as_str().to_string()));
            }
            Some(groups)
        },
    }
}

/// `Regex::is_match`: whether the expression matches somewhere in the text.
#[verifier::external_body]
pub(crate) fn pattern_is_match(p: &Pattern, haystack: &str) -> (res: bool)
    ensures
        res == regex_is_match(p.source(), haystack@),
{
    p.regex.is_match(haystack)
}

/// `Regex::replace`: the text with the first match replaced, `$n` in the
/// replacement standing for group `n`.
#[verifier::external_body]
pub(crate) fn pattern_replace(p: &Pattern, haystack: &str, replacement: &str) -> (res: String)
    ensures
        res@ == regex_replace(p.source(), haystack@, replacement@),
{
    p.regex.replace(haystack, replacement).into_owned()
}

} // verus!
