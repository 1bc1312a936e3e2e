//! Match patterns for feed titles and descriptions, backed by the `regex`
//! crate behind trusted wrappers.

use vstd::prelude::*;

verus! {

/// Whether `pat` is a valid regular expression (accepted by `regex::Regex::new`).
pub uninterp spec fn re_valid(pat: Seq<char>) -> bool;

/// Whether the regular expression `pat` matches anywhere in `text`.
pub uninterp spec fn re_match(pat: Seq<char>, text: Seq<char>) -> bool;

/// Relies on regex::Regex::new: it returns Ok exactly when the pattern is
/// valid (syntactically well formed and within the default size limit), an
/// outcome that depends on the pattern alone.
#[verifier::external_body]
fn regex_is_valid(pat: &str) -> (r: bool)
    ensures
        r == re_valid(pat@),
{
    regex::Regex::new(pat).is_ok()
}

/// Relies on regex::Regex::new and regex::Regex::is_match: compiling succeeds
/// exactly on valid patterns, and whether a compiled pattern matches anywhere
/// in the text depends on the pattern and the text alone.
#[verifier::external_body]
fn regex_matches(pat: &str, text: &str) -> (r: Option<bool>)
    ensures
        r is Some <==> re_valid(pat@),
        r matches Some(b) ==> b == re_match(pat@, text@),
{
    regex::Regex::new(pat).ok().map(|re| re.is_match(text))
}

/// One configured match pattern of a source, kept as its textual form.
pub struct Pattern {
    pub raw: String,
}

impl Pattern {
    /// True exactly when the pattern is a valid regular expression that
    /// matches somewhere in `text`; an invalid pattern matches nothing.
    pub fn is_match(&self, text: &str) -> (r: bool)
        ensures
            r == (re_valid(self.raw@) && re_match(self.raw@, text@)),
    {
        match regex_matches(self.raw.as_str(), text) {
            Some(b) => b,
            None => false,
        }
    }

    /// True exactly when the pattern is a valid regular expression.
    pub fn is_valid(&self) -> (r: bool)
        ensures
            r == re_valid(self.raw@),
    {
        regex_is_valid(self.raw.as_str())
    }
}

impl Clone for Pattern {
    fn clone(&self) -> (res: Self)
        ensures
            res == *self,
    {
        Pattern { raw: self.raw.clone() }
    }
}

} // verus!
