//! Regular expressions as the filters see them.
//!
//! Compiling and matching are the work of the `regex` crate.  Nothing here is
//! proved about either: the declarations below give each a name, and the
//! filters' contracts are stated over those names.

use regex::Regex;
use vstd::prelude::*;

verus! {

/// `regex::Regex`, a compiled expression.  Nothing of its inside is known
/// here.
#[verifier::external_type_specification]
#[verifier::external_body]
pub struct ExRegex(regex::Regex);

/// `regex::Error`, the reason why a pattern does not compile.  Nothing of its
/// inside is known here.
#[verifier::external_type_specification]
#[verifier::external_body]
pub struct ExRegexError(regex::Error);

/// What `Regex::new` returns for the pattern text `pattern`: the compiled
/// expression, or the reason why there is none.
pub uninterp spec fn compiled(pattern: Seq<char>) -> Result<Regex, regex::Error>;

/// Whether `Regex::is_match` finds a match of `re` anywhere in `haystack`.
pub uninterp spec fn found_in(re: Regex, haystack: Seq<char>) -> bool;

/// The text that `regex::Error` displays for `err`.
pub uninterp spec fn diagnostic(err: regex::Error) -> Seq<char>;

/// `Regex::new` depends on the pattern text alone, the size limit being the
/// crate's own; its result is [`compiled`] of that text.  Assumed, not
/// proved.
pub assume_specification[ Regex::new ](re: &str) -> (r: Result<Regex, regex::Error>)
    ensures
        r == compiled(re@),
;

/// `Regex::is_match` depends on the expression and the haystack alone; its
/// result is [`found_in`] of the two.  It searches from offset 0 and so never
/// panics.  Assumed, not proved.
pub assume_specification[ Regex::is_match ](re: &Regex, haystack: &str) -> (r: bool)
    ensures
        r == found_in(*re, haystack@),
;

/// Calls the `Display` impl of `regex::Error`, which formats the variant's
/// payload and nothing else; the result is [`diagnostic`] of the error.
/// Assumed, not proved.
#[verifier::external_body]
fn error_text(err: &regex::Error) -> (text: String)
    ensures
        text@ == diagnostic(*err),
{
    err.to_string()
}

/// A pattern that is not a regular expression, with the compiler's words on
/// why.
#[derive(Debug)]
pub struct PatternError {
    /// The pattern that was refused.
    pub pattern: String,
    /// The compiler's diagnostic.
    pub message: String,
}

impl PatternError {
    /// This error is the one that compiling `pattern` gives: the pattern does
    /// not compile, and the error carries it and its diagnostic.
    pub open spec fn reports(self, pattern: Seq<char>) -> bool {
        &&& compiled(pattern) is Err
        &&& self.pattern@ == pattern
        &&& self.message@ == diagnostic(compiled(pattern)->Err_0)
    }
}

/// The expression that an optional pattern stands for, where the pattern
/// compiles: none for no pattern.
pub open spec fn expression_of(pattern: Option<Seq<char>>) -> Option<Regex> {
    match pattern {
        Some(p) => Some(compiled(p)->Ok_0),
        None => None,
    }
}

/// Whether an optional pattern is one that does not compile.
pub open spec fn is_invalid(pattern: Option<Seq<char>>) -> bool {
    pattern is Some && compiled(pattern->Some_0) is Err
}

/// The first of the two patterns that does not compile, the allow-pattern
/// coming before the deny-pattern; none if both compile or are not there.
pub open spec fn first_invalid(white: Option<Seq<char>>, black: Option<Seq<char>>) -> Option<
    Seq<char>,
> {
    if is_invalid(white) {
        white
    } else if is_invalid(black) {
        black
    } else {
        None
    }
}

/// Compiles `pattern`, or says why it cannot be compiled.
pub fn compile(pattern: &str) -> (r: Result<Regex, PatternError>)
    ensures
        match r {
            Ok(re) => compiled(pattern@) == Ok::<Regex, regex::Error>(re),
            Err(e) => e.reports(pattern@),
        },
{
    match Regex::new(pattern) {
        Ok(re) => Ok(re),
        Err(err) => Err(PatternError { pattern: pattern.to_owned(), message: error_text(&err) }),
    }
}

} // verus!
