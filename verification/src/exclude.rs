//! Exclude patterns: compiled regular expressions applied to path strings.
//!
//! A path is excluded when any pattern matches its string form.  The
//! regular-expression engine is outside the library; what a pattern
//! matches is named, and every contract above this module speaks of that
//! name.

use vstd::prelude::*;

verus! {

use crate::errors::BcmrError;

/// Declares regex::Regex, the compiled expression type, so that it can
/// stand in fields and signatures; its values are opaque here.
#[verifier::external_type_specification]
#[verifier::external_body]
pub struct ExRegex(regex::Regex);

/// Whether the regular expression `pattern` matches somewhere in `text`.
pub uninterp spec fn regex_matches(pattern: Seq<char>, text: Seq<char>) -> bool;

/// Whether `pattern` is a valid regular expression: compiling it is a
/// function of the pattern text alone.
pub uninterp spec fn regex_compiles(pattern: Seq<char>) -> bool;

/// Relies on regex::Regex::clone: cloning a compiled expression.
pub assume_specification[ <regex::Regex as Clone>::clone ](re: &regex::Regex) -> regex::Regex;

/// Relies on regex::Regex::new: compiles the pattern — succeeding exactly
/// on the valid patterns — or reports the library's error message.
#[verifier::external_body]
fn regex_new(pattern: &str) -> (r: Result<regex::Regex, String>)
    ensures
        r is Ok <==> regex_compiles(pattern@),
{
    match regex::Regex::new(pattern) {
        Ok(re) => Ok(re),
        Err(e) => Err(e.to_string()),
    }
}

/// One compiled exclude pattern, remembering its source text.
#[derive(Clone)]
pub struct ExcludePattern {
    pattern: String,
    regex: regex::Regex,
}

impl View for ExcludePattern {
    type V = Seq<char>;

    closed spec fn view(&self) -> Seq<char> {
        self.pattern@
    }
}

impl ExcludePattern {
    /// Compiles one pattern: succeeds exactly when the pattern is a
    /// valid regular expression.
    pub fn new(pattern: &str) -> (r: Result<ExcludePattern, BcmrError>)
        ensures
            r is Ok <==> regex_compiles(pattern@),
            r is Ok ==> r->Ok_0@ == pattern@,
            r is Err ==> r->Err_0 is Regex,
    {
        match regex_new(pattern) {
            Ok(re) => Ok(ExcludePattern { pattern: pattern.to_owned(), regex: re }),
            Err(msg) => Err(BcmrError::Regex(msg)),
        }
    }

    /// The pattern's source text.
    pub fn pattern(&self) -> (r: &str)
        ensures
            r@ == self@,
    {
        self.pattern.as_str()
    }

    /// Relies on regex::Regex::is_match: whether this pattern matches the
    /// text.  The compiled expression is the one built from `self@` by the
    /// constructor, so the result is `regex_matches` of the pattern text.
    #[verifier::external_body]
    pub(crate) fn is_match(&self, text: &str) -> (r: bool)
        ensures
            r == regex_matches(self@, text@),
    {
        self.regex.is_match(text)
    }
}

/// The pattern texts of a compiled pattern list.
pub open spec fn patterns_of(pats: Seq<ExcludePattern>) -> Seq<Seq<char>> {
    pats.map_values(|p: ExcludePattern| p@)
}

/// A path is excluded when any pattern in the list matches it.
pub open spec fn excluded_spec(path: Seq<char>, pats: Seq<Seq<char>>) -> bool {
    exists|i: int| 0 <= i < pats.len() && regex_matches(pats[i], path)
}

/// Whether the path's string form matches any exclude pattern.
pub fn is_excluded(path: &str, excludes: &Vec<ExcludePattern>) -> (r: bool)
    ensures
        r == excluded_spec(path@, patterns_of(excludes@)),
{
    let ghost pats = patterns_of(excludes@);
    let mut i: usize = 0;
    while i < excludes.len()
        invariant
            i <= excludes@.len(),
            pats == patterns_of(excludes@),
            forall|k: int| 0 <= k < i ==> !regex_matches(pats[k], path@),
        decreases excludes.len() - i,
    {
        if excludes[i].is_match(path) {
            assert(regex_matches(pats[i as int], path@));
            return true;
        }
        i = i + 1;
    }
    false
}

/// Compiles a pattern list: succeeds exactly when every pattern is a
/// valid regular expression; the first failure aborts with its message.
pub fn compile_excludes(patterns: &Vec<String>) -> (r: Result<Vec<ExcludePattern>, BcmrError>)
    ensures
        r is Ok <==> forall|i: int|
            0 <= i < patterns@.len() ==> regex_compiles(#[trigger] patterns@[i]@),
        r is Ok ==> patterns_of(r->Ok_0@) == patterns@.map_values(|p: String| p@),
        r is Err ==> r->Err_0 is Regex,
{
    let mut out: Vec<ExcludePattern> = Vec::new();
    let mut i: usize = 0;
    while i < patterns.len()
        invariant
            i <= patterns@.len(),
            out@.len() == i,
            patterns_of(out@) == patterns@.map_values(|p: String| p@).take(i as int),
            forall|k: int| 0 <= k < i ==> regex_compiles(#[trigger] patterns@[k]@),
        decreases patterns.len() - i,
    {
        match ExcludePattern::new(patterns[i].as_str()) {
            Ok(p) => {
                out.push(p);
                i = i + 1;
                assert(patterns_of(out@) =~= patterns@.map_values(|p: String| p@).take(i as int));
            }
            Err(e) => {
                assert(!regex_compiles(patterns@[i as int]@));
                return Err(e);
            }
        }
    }
    proof {
        assert(patterns_of(out@) =~= patterns@.map_values(|p: String| p@));
    }
    Ok(out)
}

} // verus!
