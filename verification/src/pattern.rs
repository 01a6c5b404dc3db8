//! The boundary to the `regex` crate: compiling a pattern and applying a
//! substitution. Everything above this module reasons about the two named
//! results `pattern_compiles` and `rewrite_of`; nothing else about the regex
//! engine is assumed.

use vstd::prelude::*;

verus! {

#[verifier::external_type_specification]
#[verifier::external_body]
pub struct ExRegex(regex::Regex);

/// Whether `regex::Regex::new` accepts `pattern` (with its default
/// configuration); success depends on the pattern text alone.
pub uninterp spec fn pattern_compiles(pattern: Seq<char>) -> bool;

/// The string that `regex::Regex::replace` produces for a regex compiled from
/// `pattern`, a substitution template `replacement` (capture-group references
/// expanded) and a haystack `text`: the leftmost match is substituted, or the
/// haystack comes back unchanged. The result depends on these three strings
/// alone.
pub uninterp spec fn rewrite_of(pattern: Seq<char>, replacement: Seq<char>, text: Seq<char>) -> Seq<
    char,
>;

/// A compiled regex paired with the pattern text it was compiled from.
pub(crate) struct CompiledPattern {
    regex: regex::Regex,
    source: String,
}

impl CompiledPattern {
    /// The pattern text this regex was compiled from.
    pub(crate) closed spec fn pattern(&self) -> Seq<char> {
        self.source@
    }

    /// Relies on `regex::Regex::new`: it succeeds exactly on valid patterns
    /// (of the default size limit), and the error carries a printable reason.
    #[verifier::external_body]
    pub(crate) fn compile(pattern: &str) -> (r: Result<CompiledPattern, String>)
        ensures
            r is Ok <==> pattern_compiles(pattern@),
            r matches Ok(cp) ==> cp.pattern() == pattern@,
    {
        match regex::Regex::new(pattern) {
            Ok(regex) => Ok(CompiledPattern { regex, source: pattern.to_owned() }),
            Err(e) => Err(format!("invalid pattern '{}': {}", pattern, e)),
        }
    }

    /// Relies on `regex::Regex::replace`: it substitutes the leftmost match
    /// (or returns the haystack unchanged), and its result is a function of
    /// the pattern, the replacement template and the haystack.
    #[verifier::external_body]
    pub(crate) fn rewrite(&self, text: &str, replacement: &str) -> (r: String)
        ensures
            r@ == rewrite_of(self.pattern(), replacement@, text@),
    {
        self.regex.replace(text, replacement).into_owned()
    }
}

} // verus!
