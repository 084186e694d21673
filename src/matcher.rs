//! A compiled matcher bound to the exact text it was compiled from. This is
//! the only place that calls the regular-expression engine.
use vstd::prelude::*;
use regex::Regex;

verus! {

#[verifier::external_type_specification]
#[verifier::external_body]
pub struct ExRegex(Regex);

/// Whether a regex compiled with default settings from `pattern` finds a
/// match anywhere in `text`.
pub uninterp spec fn pattern_matches(pattern: Seq<char>, text: Seq<char>) -> bool;

/// A compiled regex together with its source text. Both fields are set only
/// by [`compile`], so `regex` is always the compilation of `source`.
pub struct Matcher {
    regex: Regex,
    source: String,
}

/// Why the engine refused to compile a pattern.
pub enum CompileFailure {
    /// The pattern is malformed; the engine's message.
    Syntax(String),
    /// The compiled program would exceed the engine's size limit (in bytes).
    TooBig(usize),
    /// A failure kind that this library does not know.
    Unrecognized,
}

impl Matcher {
    /// The text this matcher was compiled from.
    pub closed spec fn source(self) -> Seq<char> {
        self.source@
    }

    /// The text this matcher was compiled from.
    pub fn as_str(&self) -> (r: &str)
        ensures
            r@ == self.source(),
    {
        self.source.as_str()
    }
}

/// Relies on regex::Regex::new: on success the regex is compiled from
/// `pattern`, which the matcher keeps as its source; its two documented
/// error variants are passed on as they are.
#[verifier::external_body]
pub(crate) fn compile(pattern: String) -> (r: Result<Matcher, CompileFailure>)
    ensures
        r matches Ok(m) ==> m.source() == pattern@,
{
    match Regex::new(&pattern) {
        Ok(regex) => Ok(Matcher { regex, source: pattern }),
        Err(regex::Error::Syntax(message)) => Err(CompileFailure::Syntax(message)),
        Err(regex::Error::CompiledTooBig(limit)) => Err(CompileFailure::TooBig(limit)),
        Err(_) => Err(CompileFailure::Unrecognized),
    }
}

/// Relies on regex::Regex::is_match: whether the regex compiled from the
/// matcher's source matches somewhere in `text`.
#[verifier::external_body]
pub(crate) fn search(m: &Matcher, text: &str) -> (r: bool)
    ensures
        r == pattern_matches(m.source(), text@),
{
    m.regex.is_match(text)
}

} // verus!
