//! Searching a text for a regular expression and reading its capture groups.

use vstd::prelude::*;

verus! {

/// The text of each capture group of a match, group 0 (the whole match)
/// first; `None` stands for a group that took no part in the match.
pub type Groups = Vec<Option<String>>;

/// Whether `regex::Regex::new` accepts the expression written as `pattern`:
/// its syntax is valid and the program it compiles to stays within the
/// engine's size limit.
pub uninterp spec fn pattern_compiles(pattern: Seq<char>) -> bool;

/// What `regex::Regex::captures` reports when the expression written as
/// `pattern` is searched for in `haystack`: `None` where the expression
/// matches nowhere, otherwise the capture groups of the leftmost match.
/// Nothing is said here of a `pattern` that does not compile.
pub uninterp spec fn regex_captures(pattern: Seq<char>, haystack: Seq<char>) -> Option<
    Seq<Option<Seq<char>>>,
>;

/// `part` stands in `whole` as one unbroken piece.
pub open spec fn occurs_in(part: Seq<char>, whole: Seq<char>) -> bool {
    exists|from: int, to: int|
        0 <= from <= to <= whole.len() && part == #[trigger] whole.subrange(from, to)
}

/// Every group that took part in the match is a piece of `haystack`.
pub open spec fn groups_occur_in(groups: Seq<Option<Seq<char>>>, haystack: Seq<char>) -> bool {
    forall|i: int|
        0 <= i < groups.len() && (#[trigger] groups[i]) is Some ==> occurs_in(
            groups[i]->0,
            haystack,
        )
}

/// `regex::Error`, the reason why an expression was refused. It is only
/// carried through; nothing is read from it.
#[verifier::external_type_specification]
#[verifier::external_body]
pub struct ExRegexError(regex::Error);

/// The expression could not be compiled.
#[derive(Debug, Clone, Copy, PartialEq, Eq)]
pub enum PatternError {
    Invalid,
}

/// Compiles `pattern` with `regex::Regex::new` and searches `haystack` with
/// `regex::Regex::captures`, copying out the text of every group with
/// `regex::Match::as_str`.
///
/// Believed, not proved: the search runs if and only if `Regex::new`
/// accepts the pattern, which `pattern_compiles` names, and its error is
/// handed on as it is; a search that ran returns what `regex_captures`
/// names, and each group it returns is a substring of `haystack`.
#[verifier::external_body]
fn capture_groups(pattern: &str, haystack: &str) -> (found: Result<Option<Groups>, regex::Error>)
    ensures
        found is Ok <==> pattern_compiles(pattern@),
        found matches Ok(groups) ==> groups.deep_view() == regex_captures(pattern@, haystack@),
        found matches Ok(Some(groups)) ==> groups_occur_in(groups.deep_view(), haystack@),
{
    let expression = regex::Regex::new(pattern)?;
    let captures = match expression.captures(haystack) {
        Some(captures) => captures,
        None => return Ok(None),
    };
    let mut groups = Vec::new();
    for group in captures.iter() {
        groups.push(group.map(|m| m.as_str().to_string()));
    }
    Ok(Some(groups))
}

/// Searches `haystack` for the regular expression `pattern` and returns the
/// capture groups of the leftmost match, or `None` where there is no match.
///
/// It fails, with `PatternError::Invalid`, if and only if the expression
/// engine refuses `pattern`.
pub fn search(pattern: &str, haystack: &str) -> (found: Result<Option<Groups>, PatternError>)
    ensures
        found is Ok <==> pattern_compiles(pattern@),
        found is Err ==> found == Err::<Option<Groups>, PatternError>(PatternError::Invalid),
        found matches Ok(groups) ==> groups.deep_view() == regex_captures(pattern@, haystack@),
        found matches Ok(Some(groups)) ==> groups_occur_in(groups.deep_view(), haystack@),
{
    match capture_groups(pattern, haystack) {
        Ok(groups) => Ok(groups),
        Err(_) => Err(PatternError::Invalid),
    }
}

} // verus!
