use vstd::prelude::*;

use crate::error::Error;

verus! {

#[verifier::external_type_specification]
#[verifier::external_body]
pub struct ExRegex(regex::Regex);

/// The pattern text that a compiled regex was built from
/// (`regex::Regex::as_str` returns it).
pub uninterp spec fn regex_source_of(r: regex::Regex) -> Seq<char>;

/// Whether a pattern compiles (`regex::Regex::new` returns `Ok`); a function
/// of the pattern alone.
pub uninterp spec fn regex_compiles(p: Seq<char>) -> bool;

/// The compile error's message for a pattern that does not compile; a
/// function of the pattern alone.
pub uninterp spec fn regex_error_of(p: Seq<char>) -> Seq<char>;

/// Whether the regex built from pattern `p` matches anywhere in text `t`;
/// a function of the pattern and the text alone.
pub uninterp spec fn regex_match_of(p: Seq<char>, t: Seq<char>) -> bool;

/// Relies on `regex::Regex::new`: compiles the pattern; success and the
/// error message are functions of the pattern alone, and the compiled value
/// keeps the pattern as its source.
#[verifier::external_body]
fn regex_new(p: &str) -> (r: Result<regex::Regex, String>)
    ensures
        r is Ok <==> regex_compiles(p@),
        r matches Ok(re) ==> regex_source_of(re) == p@,
        r matches Err(m) ==> m@ == regex_error_of(p@),
{
    match regex::Regex::new(p) {
        Ok(re) => Ok(re),
        Err(e) => Err(format!("{}", e)),
    }
}

/// Relies on `regex::Regex::is_match`: whether the regex matches anywhere
/// in the text, a function of the regex's source and the text.
#[verifier::external_body]
fn regex_is_match(re: &regex::Regex, t: &str) -> (r: bool)
    ensures
        r == regex_match_of(regex_source_of(*re), t@),
{
    re.is_match(t)
}

/// A regular expression compiled once at load time, kept together with its
/// source text so that contracts can speak of the pattern.
#[derive(Debug)]
pub struct Pattern {
    pub source: String,
    pub compiled: regex::Regex,
}

impl Pattern {
    /// The compiled regex was really built from `source`.
    pub open spec fn wf(&self) -> bool {
        regex_compiles(self.source@) && regex_source_of(self.compiled) == self.source@
    }

    /// Compiles `source`; fails exactly on the patterns that the regex
    /// engine refuses.
    pub fn new(source: &str) -> (r: Result<Pattern, Error>)
        ensures
            r is Ok <==> regex_compiles(source@),
            r matches Ok(p) ==> p.wf() && p.source@ == source@,
            r matches Err(e) ==> e matches Error::RegexParsingError(m) && m@ == regex_error_of(
                source@,
            ),
    {
        match regex_new(source) {
            Ok(re) => Ok(Pattern { source: String::from_str(source), compiled: re }),
            Err(m) => Err(Error::RegexParsingError(m)),
        }
    }

    /// Whether this pattern matches anywhere in `t`.
    pub fn is_match(&self, t: &str) -> (r: bool)
        requires
            self.wf(),
        ensures
            r == regex_match_of(self.source@, t@),
    {
        regex_is_match(&self.compiled, t)
    }

    /// The pattern's source text.
    pub fn as_str(&self) -> (r: &str)
        ensures
            r@ == self.source@,
    {
        self.source.as_str()
    }
}

impl PartialEq for Pattern {
    /// Two patterns are equal when their source texts are; the compiled
    /// regex is a function of the source.
    fn eq(&self, other: &Self) -> (r: bool) {
        self.source.eq(&other.source)
    }
}

impl vstd::std_specs::cmp::PartialEqSpecImpl for Pattern {
    open spec fn obeys_eq_spec() -> bool {
        true
    }

    open spec fn eq_spec(&self, other: &Self) -> bool {
        self.source@ == other.source@
    }
}

} // verus!
