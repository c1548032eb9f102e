//! Regular expressions, as the `regex` crate compiles and runs them.
//!
//! Nothing here says which patterns compile or what a pattern matches: that
//! is the `regex` crate's business. What is said is that both are settled by
//! the pattern and the text alone, so that the two have names that the
//! contracts of this library can speak of.
use vstd::prelude::*;
use vstd::string::*;
use regex::Regex;

verus! {

/// A compiled regular expression of the `regex` crate.
#[verifier::external_type_specification]
#[verifier::external_body]
pub struct ExRegex(regex::Regex);

/// The error with which the `regex` crate refuses a pattern.
#[verifier::external_type_specification]
#[verifier::external_body]
pub struct ExRegexError(regex::Error);

/// What `Regex::new` makes of a pattern: a compiled regular expression, or
/// the error with which it refuses the pattern.
pub uninterp spec fn regex_new(pattern: Seq<char>) -> Result<Regex, regex::Error>;

/// What `Regex::is_match` answers: whether the regular expression matches
/// anywhere in the haystack.
pub uninterp spec fn regex_is_match(regex: Regex, haystack: Seq<char>) -> bool;

/// `Regex::new` compiles a pattern, with the crate's default options. It
/// gives an error for a pattern that is not a valid regular expression or
/// that compiles to more than the default size limit. What it gives is
/// settled by the pattern alone.
pub assume_specification[ Regex::new ](re: &str) -> (compiled: Result<Regex, regex::Error>)
    ensures
        compiled == regex_new(re@),
;

/// `Regex::is_match` says whether there is a match for the regular
/// expression anywhere in the haystack. The answer is settled by the regular
/// expression and the haystack alone.
pub assume_specification[ Regex::is_match ](regex: &Regex, haystack: &str) -> (found: bool)
    ensures
        found == regex_is_match(*regex, haystack@),
;

/// Whether the pattern compiles.
pub open spec fn compiles(pattern: Seq<char>) -> bool {
    regex_new(pattern) is Ok
}

/// What a search for `pattern` in `text` comes to: `None` where the pattern
/// does not compile, else whether it matches anywhere in the text.
pub open spec fn search_outcome(pattern: Seq<char>, text: Seq<char>) -> Option<bool> {
    match regex_new(pattern) {
        Ok(regex) => Some(regex_is_match(regex, text)),
        Err(_) => None,
    }
}

/// Compiles `pattern` and searches `text` for a match. A pattern that does
/// not compile is not an error to the caller: the outcome is `None`.
pub fn search(pattern: &str, text: &str) -> (found: Option<bool>)
    ensures
        found == search_outcome(pattern@, text@),
        found is Some <==> compiles(pattern@),
{
    match Regex::new(pattern) {
        Ok(regex) => Some(regex.is_match(text)),
        Err(_) => None,
    }
}

/// What is put before a pattern to make it match from the start of the
/// text: the anchor, and the opening of a group that does not capture.
pub const WHOLE_PREFIX: &'static str = "^(?:";

/// What is put after a pattern to make it match up to the end of the text:
/// the closing of the group, and the anchor.
pub const WHOLE_SUFFIX: &'static str = ")$";

/// The pattern that matches a text exactly where `pattern` matches the whole
/// of it: `pattern` as a group between the two anchors.
pub open spec fn whole(pattern: Seq<char>) -> Seq<char> {
    WHOLE_PREFIX@ + pattern + WHOLE_SUFFIX@
}

/// What matching the whole of `text` against `pattern` comes to: `None`
/// where the pattern does not compile, by itself or between the anchors,
/// else whether it matches the text from its start to its end.
pub open spec fn whole_match_outcome(pattern: Seq<char>, text: Seq<char>) -> Option<bool> {
    if compiles(pattern) {
        search_outcome(whole(pattern), text)
    } else {
        None
    }
}

/// Compiles `pattern` and matches the whole of `text` against it. The
/// pattern is compiled as it stands first, so that one that is malformed by
/// itself is never mended by what is put around it. A pattern that does not
/// compile is not an error to the caller: the outcome is `None`.
pub fn whole_match(pattern: &str, text: &str) -> (found: Option<bool>)
    ensures
        found == whole_match_outcome(pattern@, text@),
        found is Some ==> compiles(pattern@),
{
    match Regex::new(pattern) {
        Ok(_) => {
            let mut anchored = String::from_str(WHOLE_PREFIX);
            anchored.append(pattern);
            anchored.append(WHOLE_SUFFIX);
            search(anchored.as_str(), text)
        },
        Err(_) => None,
    }
}

} // verus!
