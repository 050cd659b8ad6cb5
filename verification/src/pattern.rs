use vstd::prelude::*;

use regex::Regex;

verus! {

#[verifier::external_type_specification]
#[verifier::external_body]
pub struct ExRegex(Regex);

#[verifier::external_type_specification]
#[verifier::external_body]
pub struct ExRegexError(regex::Error);

/// Whether `regex` compiles `pattern` with its default settings.
pub uninterp spec fn regex_compiles(pattern: Seq<char>) -> bool;

/// Whether the regular expression `pattern` matches somewhere in `text`.
pub uninterp spec fn regex_is_match(pattern: Seq<char>, text: Seq<char>) -> bool;

/// A regular expression together with the text it was compiled from.
pub struct CompiledPattern {
    re: Regex,
    source: String,
}

impl View for CompiledPattern {
    type V = Seq<char>;

    /// The source text of the expression.
    closed spec fn view(&self) -> Seq<char> {
        self.source@
    }
}

/// Compiles a regular expression.
///
/// Trusted: calls `regex::Regex::new`. The contract claims that success is a
/// function of the pattern, named `regex_compiles`, and that the compiled
/// value remembers the pattern it came from. Only this function builds a
/// `CompiledPattern`, so its `re` is always compiled from its `source`.
#[verifier::external_body]
pub(crate) fn compile_pattern(pattern: String) -> (res: Result<CompiledPattern, regex::Error>)
    ensures
        res is Ok <==> regex_compiles(pattern@),
        res matches Ok(p) ==> p@ == pattern@,
{
    match Regex::new(pattern.as_str()) {
        Ok(re) => Ok(CompiledPattern { re, source: pattern }),
        Err(e) => Err(e),
    }
}

/// Tests a compiled expression against `text`.
///
/// Trusted: calls `regex::Regex::is_match`. The contract claims that the
/// answer is a function of the expression's source and the text, named
/// `regex_is_match`.
#[verifier::external_body]
pub(crate) fn pattern_is_match(p: &CompiledPattern, text: &str) -> (b: bool)
    ensures
        b == regex_is_match(p@, text@),
{
    p.re.is_match(text)
}

} // verus!
