//! The file filter: a pattern filter over a file's base name.

use super::paths::{file_name, final_component, to_text, unicode_text};
use super::pattern::{expression_of, first_invalid, PatternError};
use super::text::text_view;
use super::wb_filter::{matches_text, WbFilter};
use regex::Regex;
use std::path::PathBuf;
use vstd::prelude::*;

verus! {

/// An allow/deny filter over the base names of files.
pub struct FileFilter(WbFilter);

impl FileFilter {
    /// The pattern filter that the base names are put to.
    pub closed spec fn patterns(self) -> WbFilter {
        self.0
    }

    /// The verdict on `path` by its name alone: none for a path without a
    /// final component, else whether the pattern filter admits that
    /// component's text.
    pub open spec fn verdict(self, path: PathBuf) -> Option<bool> {
        match final_component(path) {
            Some(name) => Some(self.patterns().admits(unicode_text(name))),
            None => None,
        }
    }

    /// The verdict on a path of which the caller has found out whether it is
    /// a regular file now: none unless it is.
    pub open spec fn checked_verdict(self, path: PathBuf, is_file: bool) -> Option<bool> {
        if is_file {
            self.verdict(path)
        } else {
            None
        }
    }

    /// The filter without patterns.
    pub fn empty() -> (r: Self)
        ensures
            r.patterns().allow() is None,
            r.patterns().deny() is None,
    {
        Self(WbFilter::empty())
    }

    /// A file filter around a pattern filter.
    pub fn new_filter(filter: WbFilter) -> (r: Self)
        ensures
            r.patterns() == filter,
    {
        Self(filter)
    }

    /// A file filter from patterns that are compiled already.
    pub fn new_regex(white: Option<Regex>, black: Option<Regex>) -> (r: Self)
        ensures
            r.patterns().allow() == white,
            r.patterns().deny() == black,
    {
        Self(WbFilter::new_regex(white, black))
    }

    /// A file filter from pattern texts.  The allow-pattern is compiled
    /// first; the first pattern that does not compile is reported and no
    /// filter is made.
    pub fn new(white: Option<&str>, black: Option<&str>) -> (r: Result<Self, PatternError>)
        ensures
            match r {
                Ok(f) => {
                    &&& first_invalid(text_view(white), text_view(black)) is None
                    &&& f.patterns().allow() == expression_of(text_view(white))
                    &&& f.patterns().deny() == expression_of(text_view(black))
                },
                Err(e) => {
                    &&& first_invalid(text_view(white), text_view(black)) matches Some(pattern)
                    &&& e.reports(pattern)
                },
            },
    {
        match WbFilter::new(white, black) {
            Ok(filter) => Ok(Self(filter)),
            Err(e) => Err(e),
        }
    }

    /// Whether the file is admitted.  `is_file` says whether `path` is a
    /// regular file now, which the caller has looked up; for anything else
    /// there is no verdict.
    pub fn is_allowed(&self, path: &PathBuf, is_file: bool) -> (r: Option<bool>)
        ensures
            r == self.checked_verdict(*path, is_file),
    {
        if is_file {
            self.is_allowed_unchecked(path)
        } else {
            None
        }
    }

    /// Whether the name of `path` is admitted, without asking whether the
    /// path exists.  There is no verdict on a path without a final component.
    pub fn is_allowed_unchecked(&self, path: &PathBuf) -> (r: Option<bool>)
        ensures
            r == self.verdict(*path),
    {
        match file_name(path) {
            Some(name) => Some(self.0.is_allowed_opt(to_text(&name))),
            None => None,
        }
    }

    /// Whether the file is refused: the opposite of [`Self::is_allowed`],
    /// where that has a verdict.
    pub fn is_denied(&self, path: &PathBuf, is_file: bool) -> (r: Option<bool>)
        ensures
            r == negated(self.checked_verdict(*path, is_file)),
    {
        match self.is_allowed(path, is_file) {
            Some(allowed) => Some(!allowed),
            None => None,
        }
    }

    /// Whether the name of `path` is refused: the opposite of
    /// [`Self::is_allowed_unchecked`], where that has a verdict.
    pub fn is_denied_unchecked(&self, path: &PathBuf) -> (r: Option<bool>)
        ensures
            r == negated(self.verdict(*path)),
    {
        match self.is_allowed_unchecked(path) {
            Some(allowed) => Some(!allowed),
            None => None,
        }
    }
}

/// The opposite verdict, where there is one.
pub open spec fn negated(verdict: Option<bool>) -> Option<bool> {
    match verdict {
        Some(allowed) => Some(!allowed),
        None => None,
    }
}

/// A filter without patterns admits every file and has no verdict on a path
/// that is no regular file.  A file is a path with a final component: on a
/// path without one there is no verdict either.
pub proof fn no_patterns_admit_every_file(filter: FileFilter, path: PathBuf, is_file: bool)
    requires
        filter.patterns().allow() is None,
        filter.patterns().deny() is None,
    ensures
        !is_file ==> filter.checked_verdict(path, is_file) is None,
        is_file && final_component(path) is Some ==> filter.checked_verdict(path, is_file) == Some(
            true,
        ),
        is_file && final_component(path) is None ==> filter.checked_verdict(path, is_file) is None,
{
}

/// A filter with an allow-pattern alone admits exactly the files whose base
/// name the pattern matches, and has no verdict on a path that is no regular
/// file, whatever its name.
pub proof fn allow_pattern_alone_admits_its_matches(
    filter: FileFilter,
    allow: Regex,
    path: PathBuf,
    name: PathBuf,
    is_file: bool,
)
    requires
        filter.patterns().allow() == Some(allow),
        filter.patterns().deny() is None,
        final_component(path) == Some(name),
    ensures
        filter.verdict(path) == Some(matches_text(allow, unicode_text(name))),
        is_file ==> filter.checked_verdict(path, is_file) == Some(
            matches_text(allow, unicode_text(name)),
        ),
        !is_file ==> filter.checked_verdict(path, is_file) is None,
{
}

/// A filter with a deny-pattern alone admits exactly the files whose base
/// name the pattern does not match.
pub proof fn deny_pattern_alone_admits_the_rest(
    filter: FileFilter,
    deny: Regex,
    path: PathBuf,
    name: PathBuf,
    is_file: bool,
)
    requires
        filter.patterns().allow() is None,
        filter.patterns().deny() == Some(deny),
        final_component(path) == Some(name),
    ensures
        filter.verdict(path) == Some(!matches_text(deny, unicode_text(name))),
        is_file ==> filter.checked_verdict(path, is_file) == Some(
            !matches_text(deny, unicode_text(name)),
        ),
        !is_file ==> filter.checked_verdict(path, is_file) is None,
{
}

/// A filter with both patterns admits a file exactly when the allow-pattern
/// matches its base name and the deny-pattern does not.
pub proof fn both_patterns_admit_allowed_and_not_denied(
    filter: FileFilter,
    allow: Regex,
    deny: Regex,
    path: PathBuf,
    name: PathBuf,
)
    requires
        filter.patterns().allow() == Some(allow),
        filter.patterns().deny() == Some(deny),
        final_component(path) == Some(name),
    ensures
        filter.verdict(path) == Some(
            matches_text(allow, unicode_text(name)) && !matches_text(deny, unicode_text(name)),
        ),
{
}

/// A name that is not valid Unicode is matched by no pattern: it is admitted
/// exactly when there is no allow-pattern, whatever the deny-pattern is.
pub proof fn undecodable_name_matches_nothing(filter: FileFilter, path: PathBuf, name: PathBuf)
    requires
        final_component(path) == Some(name),
        unicode_text(name) is None,
    ensures
        filter.verdict(path) == Some(filter.patterns().allow() is None),
{
}

} // verus!
