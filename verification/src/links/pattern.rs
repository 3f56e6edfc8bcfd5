use vstd::prelude::*;

verus! {

#[verifier::external_type_specification]
#[verifier::external_body]
pub struct ExRegex(regex::Regex);

#[verifier::external_type_specification]
#[verifier::external_body]
pub struct ExRegexError(regex::Error);

/// Whether `regex::Regex::new` accepts a pattern.
pub uninterp spec fn regex_compiles(pattern: Seq<char>) -> bool;

/// Whether the regular expression compiled from a pattern matches somewhere
/// in a text (`regex::Regex::is_match`).
pub uninterp spec fn regex_matches(pattern: Seq<char>, text: Seq<char>) -> bool;

/// A compiled regular expression and the pattern it was compiled from. Only
/// [`compile`] makes one, so the pattern is always the one the expression
/// came from.
pub struct Pattern {
    regex: regex::Regex,
    source: String,
}

impl Pattern {
    /// The pattern the expression was compiled from.
    pub closed spec fn text(self) -> Seq<char> {
        self.source@
    }
}

/// `regex::Regex::new`: the contract claims that whether it succeeds is a
/// function of the pattern (`regex_compiles`), and that a compiled
/// expression keeps its pattern.
#[verifier::external_body]
pub(crate) fn compile(pattern: &str) -> (r: Result<Pattern, regex::Error>)
    ensures
        r is Ok <==> regex_compiles(pattern@),
        r matches Ok(p) ==> p.text() == pattern@,
{
    regex::Regex::new(pattern).map(|regex| Pattern { regex, source: pattern.to_string() })
}

/// `regex::Regex::is_match`: the contract claims that the result is a
/// function of the pattern the expression was compiled from and the text
/// (`regex_matches`).
#[verifier::external_body]
pub(crate) fn is_match(p: &Pattern, text: &str) -> (b: bool)
    ensures
        b == regex_matches(p.text(), text@),
{
    p.regex.is_match(text)
}

} // verus!
