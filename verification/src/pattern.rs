//! URL patterns: regular expressions tested against a text.

use vstd::prelude::*;

verus! {

/// `regex::Error`, the error of a pattern that does not compile. It is
/// carried through and never looked into.
#[verifier::external_type_specification]
#[verifier::external_body]
pub struct ExRegexError(regex::Error);

/// Whether `pattern` compiles as a regular expression: its syntax is
/// accepted and the compiled program stays within the default size limit.
pub uninterp spec fn pattern_is_valid(pattern: Seq<char>) -> bool;

/// Whether the regular expression compiled from `pattern` has a match
/// anywhere in `text`. Meaningful only for a valid pattern.
pub uninterp spec fn pattern_found(pattern: Seq<char>, text: Seq<char>) -> bool;

/// A pattern matches a text when it compiles and is found in the text; a
/// pattern that does not compile matches nothing.
pub open spec fn pattern_matches(pattern: Seq<char>, text: Seq<char>) -> bool {
    pattern_is_valid(pattern) && pattern_found(pattern, text)
}

/// Calls `regex::Regex::new` on `pattern` and, where that succeeds,
/// `regex::Regex::is_match` on `text`. Trusted: compilation succeeds or fails
/// by the pattern alone (`pattern_is_valid`), and the search result depends on
/// pattern and text alone (`pattern_found`). The compilation error is handed
/// back untouched.
#[verifier::external_body]
fn search(pattern: &str, text: &str) -> (r: Result<bool, regex::Error>)
    ensures
        r is Ok <==> pattern_is_valid(pattern@),
        r matches Ok(found) ==> found == pattern_found(pattern@, text@),
{
    Ok(regex::Regex::new(pattern)?.is_match(text))
}

/// Tests `text` against `pattern`. A pattern that is no valid regular
/// expression is treated as not matching.
pub fn matches_pattern(pattern: &str, text: &str) -> (r: bool)
    ensures
        r == pattern_matches(pattern@, text@),
{
    match search(pattern, text) {
        Ok(found) => found,
        Err(_) => false,
    }
}

/// Some pattern of the list matches the text.
pub open spec fn any_pattern_matches(patterns: Seq<Seq<char>>, text: Seq<char>) -> bool {
    exists|i: int| 0 <= i < patterns.len() && pattern_matches(#[trigger] patterns[i], text)
}

/// Tests `text` against each pattern of the list.
pub fn matches_any(patterns: &Vec<String>, text: &str) -> (r: bool)
    ensures
        r == any_pattern_matches(patterns.deep_view(), text@),
{
    let mut i: usize = 0;
    while i < patterns.len()
        invariant
            i <= patterns.len(),
            forall|k: int| 0 <= k < i ==> !pattern_matches(#[trigger] patterns.deep_view()[k], text@),
        decreases patterns.len() - i,
    {
        if matches_pattern(patterns[i].as_str(), text) {
            assert(pattern_matches(patterns.deep_view()[i as int], text@));
            return true;
        }
        i += 1;
    }
    false
}

} // verus!
