//! Regular-expression erasure through the `regex` crate.

use vstd::prelude::*;

verus! {

#[verifier::external_type_specification]
#[verifier::external_body]
pub struct ExRegex(regex::Regex);

/// Whether `regex::Regex::new` accepts `pattern`.
pub uninterp spec fn regex_compiles(pattern: Seq<char>) -> bool;

/// What `Regex::replace_all(text, "")` returns for the regex compiled from
/// `pattern`: `text` with every match (leftmost-first, non-overlapping)
/// removed.
pub uninterp spec fn regex_erase_all(pattern: Seq<char>, text: Seq<char>) -> Seq<char>;

/// A regex together with the pattern it was compiled from.
pub(crate) struct Pattern {
    source: String,
    compiled: regex::Regex,
}

impl Pattern {
    /// The pattern text this regex was compiled from.
    pub(crate) closed spec fn source(&self) -> Seq<char> {
        self.source@
    }

    /// Calls `regex::Regex::new(source)`. The contract claims only that the
    /// outcome is a function of the pattern text (named `regex_compiles`)
    /// and that a returned regex remembers its pattern.
    #[verifier::external_body]
    pub(crate) fn compile(source: &str) -> (p: Option<Pattern>)
        ensures
            p is Some <==> regex_compiles(source@),
            p matches Some(q) ==> q.source() == source@,
    {
        match regex::Regex::new(source) {
            Ok(compiled) => Some(Pattern { source: source.to_string(), compiled }),
            Err(_) => None,
        }
    }

    /// Calls `Regex::replace_all(text, "")`. The contract claims that the
    /// result is a function of the pattern and the text, named
    /// `regex_erase_all`; what that function computes is not stated.
    #[verifier::external_body]
    pub(crate) fn erase_all(&self, text: &str) -> (r: String)
        ensures
            r@ == regex_erase_all(self.source(), text@),
    {
        self.compiled.replace_all(text, "").into_owned()
    }
}

/// `text` with the matches of `pattern` erased when the regex crate accepts
/// the pattern, `text` unchanged when it does not.
pub open spec fn erase_if_compiles(pattern: Seq<char>, text: Seq<char>) -> Seq<char> {
    if regex_compiles(pattern) {
        regex_erase_all(pattern, text)
    } else {
        text
    }
}

/// Compiles `pattern` and erases its matches from `text`; a pattern that
/// does not compile leaves `text` as it is.
pub fn erase_matches(pattern: &str, text: String) -> (r: String)
    ensures
        r@ == erase_if_compiles(pattern@, text@),
{
    match Pattern::compile(pattern) {
        Some(p) => p.erase_all(text.as_str()),
        None => text,
    }
}

} // verus!
