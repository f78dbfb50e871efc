//! Compiled search patterns. The pattern engine itself is an outside
//! collaborator: compilation success and the match relation are named
//! abstractly, and every claim about them lives on the two trusted
//! wrappers below.

use vstd::prelude::*;

verus! {

/// Whether a pattern string is syntactically valid, that is, whether
/// compiling it succeeds. A function of the pattern text alone.
pub uninterp spec fn regex_valid(pattern: Seq<char>) -> bool;

/// Whether a compiled pattern matches anywhere inside a text. A function
/// of the pattern source and the text alone.
pub uninterp spec fn regex_match(pattern: Seq<char>, text: Seq<char>) -> bool;

#[verifier::external_type_specification]
#[verifier::external_body]
pub struct ExRegex(regex::Regex);

/// A compiled pattern together with the source text it was compiled
/// from. Values are only ever built by `Pattern::compile`, so the
/// compiled engine state always corresponds to `src()`.
pub struct Pattern {
    re: regex::Regex,
    source: String,
}

impl Pattern {
    /// The pattern text this value was compiled from.
    pub closed spec fn src(&self) -> Seq<char> {
        self.source@
    }

    /// Relies on `regex::Regex::new`: compiling a pattern succeeds
    /// exactly when the pattern text is valid pattern syntax, and the
    /// result's behaviour is a function of that text.
    #[verifier::external_body]
    pub fn compile(pattern: &String) -> (r: Option<Pattern>)
        ensures
            r is Some <==> regex_valid(pattern@),
            r matches Some(p) ==> p.src() == pattern@,
    {
        match regex::Regex::new(pattern.as_str()) {
            Ok(re) => Some(Pattern { re, source: pattern.clone() }),
            Err(_) => None,
        }
    }

    /// Relies on `regex::Regex::is_match`: whether the pattern matches
    /// anywhere in the text, a function of pattern source and text.
    #[verifier::external_body]
    pub fn is_match(&self, text: &String) -> (r: bool)
        ensures
            r == regex_match(self.src(), text@),
    {
        self.re.is_match(text.as_str())
    }
}

} // verus!
