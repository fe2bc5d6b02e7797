//! The pattern filter: an optional allow-pattern and an optional
//! deny-pattern over a text.

use super::pattern::{compile, expression_of, first_invalid, found_in, PatternError};
use super::text::text_view;
use regex::Regex;
use vstd::prelude::*;

verus! {

/// An allow/deny filter over texts.
///
/// A text is admitted when the allow-pattern, if there is one, matches it and
/// the deny-pattern, if there is one, does not.  A name that cannot be
/// decoded is handed in as no text at all: no pattern matches it.
pub struct WbFilter {
    white_list_regex: Option<Regex>,
    black_list_regex: Option<Regex>,
}

/// Whether `re` matches `text`; no text is matched by nothing.
pub open spec fn matches_text(re: Regex, text: Option<Seq<char>>) -> bool {
    match text {
        Some(t) => found_in(re, t),
        None => false,
    }
}

/// Whether a text is admitted of which it is known what matching each
/// pattern against it has found: `None` for a pattern that is not there.  It
/// is admitted unless the allow-pattern has not matched or the deny-pattern
/// has.
pub fn admitted(allow_found: Option<bool>, deny_found: Option<bool>) -> (r: bool)
    ensures
        r == (allow_found != Some(false) && deny_found != Some(true)),
{
    let allow_ok = match allow_found {
        Some(found) => found,
        None => true,
    };
    let deny_ok = match deny_found {
        Some(found) => !found,
        None => true,
    };
    allow_ok && deny_ok
}

impl WbFilter {
    /// The allow-pattern.
    pub closed spec fn allow(self) -> Option<Regex> {
        self.white_list_regex
    }

    /// The deny-pattern.
    pub closed spec fn deny(self) -> Option<Regex> {
        self.black_list_regex
    }

    /// Whether the filter admits `text`, where `None` stands for a name that
    /// is not valid Unicode.
    pub open spec fn admits(self, text: Option<Seq<char>>) -> bool {
        &&& match self.allow() {
            Some(re) => matches_text(re, text),
            None => true,
        }
        &&& match self.deny() {
            Some(re) => !matches_text(re, text),
            None => true,
        }
    }

    /// The filter without patterns, which admits everything.
    pub fn empty() -> (r: Self)
        ensures
            r.allow() is None,
            r.deny() is None,
    {
        Self { white_list_regex: None, black_list_regex: None }
    }

    /// A filter from patterns that are compiled already.
    pub fn new_regex(white: Option<Regex>, black: Option<Regex>) -> (r: Self)
        ensures
            r.allow() == white,
            r.deny() == black,
    {
        Self { white_list_regex: white, black_list_regex: black }
    }

    /// A filter from pattern texts.  The allow-pattern is compiled first; the
    /// first pattern that does not compile is reported and no filter is made.
    pub fn new(white: Option<&str>, black: Option<&str>) -> (r: Result<Self, PatternError>)
        ensures
            match r {
                Ok(f) => {
                    &&& first_invalid(text_view(white), text_view(black)) is None
                    &&& f.allow() == expression_of(text_view(white))
                    &&& f.deny() == expression_of(text_view(black))
                },
                Err(e) => {
                    &&& first_invalid(text_view(white), text_view(black)) matches Some(pattern)
                    &&& e.reports(pattern)
                },
            },
    {
        let white_list_regex = match white {
            Some(re) => match compile(re) {
                Ok(re) => Some(re),
                Err(e) => { return Err(e); },
            },
            None => None,
        };
        let black_list_regex = match black {
            Some(re) => match compile(re) {
                Ok(re) => Some(re),
                Err(e) => { return Err(e); },
            },
            None => None,
        };
        Ok(Self { white_list_regex, black_list_regex })
    }

    /// Whether `text` is admitted.
    pub fn is_allowed(&self, text: &str) -> (r: bool)
        ensures
            r == self.admits(Some(text@)),
    {
        let allow_found = match &self.white_list_regex {
            Some(re) => Some(re.is_match(text)),
            None => None,
        };
        let deny_found = match &self.black_list_regex {
            Some(re) => Some(re.is_match(text)),
            None => None,
        };
        admitted(allow_found, deny_found)
    }

    /// Whether a name is admitted that may not be valid Unicode: `None` is
    /// such a name, which no pattern matches, so that it is admitted exactly
    /// when there is no allow-pattern.
    pub fn is_allowed_opt(&self, text: Option<&str>) -> (r: bool)
        ensures
            r == self.admits(text_view(text)),
    {
        match text {
            Some(text) => self.is_allowed(text),
            None => {
                let allow_found = match &self.white_list_regex {
                    Some(_) => Some(false),
                    None => None,
                };
                let deny_found = match &self.black_list_regex {
                    Some(_) => Some(false),
                    None => None,
                };
                admitted(allow_found, deny_found)
            },
        }
    }

    /// Whether `text` is refused.
    pub fn is_denied(&self, text: &str) -> (r: bool)
        ensures
            r == !self.admits(Some(text@)),
    {
        !self.is_allowed(text)
    }

    /// Whether a name is refused that may not be valid Unicode.
    pub fn is_denied_opt(&self, text: Option<&str>) -> (r: bool)
        ensures
            r == !self.admits(text_view(text)),
    {
        !self.is_allowed_opt(text)
    }
}

} // verus!
