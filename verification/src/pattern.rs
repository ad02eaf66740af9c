//! Best-effort display-name extraction with a user-supplied pattern.
//!
//! A pattern is compiled once at startup; an invalid pattern is a startup
//! error. Applied to a raw profile name it yields the first matched
//! substring, and a name the pattern does not match is kept unchanged.

use vstd::prelude::*;

verus! {

#[verifier::external_type_specification]
#[verifier::external_body]
pub struct ExRegex(regex::Regex);

#[verifier::external_type_specification]
#[verifier::external_body]
pub struct ExRegexError(regex::Error);

/// A compiled pattern together with its source text. The fields are private
/// to this module and only `compile_pattern` builds a value, so the compiled
/// expression always stems from the recorded source.
pub struct CompiledPattern {
    regex: regex::Regex,
    source: String,
}

impl View for CompiledPattern {
    type V = Seq<char>;

    /// A compiled pattern is viewed as its source text.
    closed spec fn view(&self) -> Seq<char> {
        self.source@
    }
}

/// The first (leftmost) substring of `hay` that the regular expression
/// written `pattern` matches, if any: a function of the two texts alone.
pub uninterp spec fn first_match_of(pattern: Seq<char>, hay: Seq<char>) -> Option<Seq<char>>;

/// The user-supplied pattern is not a valid regular expression.
#[derive(Clone, Copy, PartialEq, Eq, Structural, Debug)]
pub enum PatternError {
    Invalid,
}

/// Whether a text is a valid regular expression (within the compiler's
/// default size limit): a function of the text alone.
pub uninterp spec fn pattern_valid(pattern: Seq<char>) -> bool;

/// Relies on `regex::Regex::new`: compiles the pattern, failing exactly on
/// text that is not a valid (or is an over-large) regular expression, which
/// depends on the text alone; the compiled value is paired with its source.
#[verifier::external_body]
fn regex_compile(pattern: &str) -> (r: Result<CompiledPattern, regex::Error>)
    ensures
        r is Ok <==> pattern_valid(pattern@),
        r matches Ok(p) ==> p@ == pattern@,
{
    match regex::Regex::new(pattern) {
        Ok(regex) => Ok(CompiledPattern { regex, source: pattern.to_owned() }),
        Err(e) => Err(e),
    }
}

/// Compile a user-supplied pattern once, at startup: a valid pattern
/// compiles, an invalid one is a static input error. A compiled pattern is
/// viewed as its source text.
pub fn compile_pattern(pattern: &str) -> (r: Result<CompiledPattern, PatternError>)
    ensures
        match r {
            Ok(p) => pattern_valid(pattern@) && p@ == pattern@,
            Err(e) => !pattern_valid(pattern@) && e == PatternError::Invalid,
        },
{
    match regex_compile(pattern) {
        Ok(p) => Ok(p),
        Err(_) => Err(PatternError::Invalid),
    }
}

/// Relies on `regex::Regex::find` (and `Match::as_str`): returns the leftmost
/// match of the pattern in the haystack, which depends on the pattern's
/// source and the haystack alone.
#[verifier::external_body]
fn find_first(p: &CompiledPattern, hay: &str) -> (r: Option<String>)
    ensures
        match r {
            Some(m) => first_match_of(p@, hay@) == Some(m@),
            None => first_match_of(p@, hay@) is None,
        },
{
    p.regex.find(hay).map(|m| m.as_str().to_owned())
}

/// The display name for a raw profile name: with no pattern the raw name;
/// with a pattern its first match in the raw name, or, when the pattern does
/// not match, the raw name unchanged.
pub open spec fn display_name_spec(raw: Seq<char>, pattern: Option<Seq<char>>) -> Seq<char> {
    match pattern {
        None => raw,
        Some(p) => match first_match_of(p, raw) {
            Some(m) => m,
            None => raw,
        },
    }
}

/// Narrow a raw profile name by an optional pattern.
pub fn resolve_display_name(raw: String, pattern: &Option<CompiledPattern>) -> (r: String)
    ensures
        r@ == display_name_spec(raw@, match pattern {
            Some(p) => Some(p@),
            None => None,
        }),
{
    match pattern {
        None => raw,
        Some(p) => match find_first(p, raw.as_str()) {
            Some(m) => m,
            None => raw,
        },
    }
}

} // verus!
