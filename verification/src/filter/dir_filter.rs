//! The directory filter: a pattern filter over a directory's whole path,
//! written with `/` between its components on every platform.

use super::file_filter::negated;
use super::paths::{slash_text, to_slash};
use super::pattern::{expression_of, first_invalid, PatternError};
use super::text::text_view;
use super::wb_filter::WbFilter;
use regex::Regex;
use std::path::PathBuf;
use vstd::prelude::*;

verus! {

/// An allow/deny filter over the paths of directories.
pub struct DirFilter(WbFilter);

impl DirFilter {
    /// The pattern filter that the paths are put to.
    pub closed spec fn patterns(self) -> WbFilter {
        self.0
    }

    /// The verdict on `path` by its text alone: whether the pattern filter
    /// admits the path's text with `/` as separator.
    pub open spec fn verdict(self, path: PathBuf) -> bool {
        self.patterns().admits(slash_text(path))
    }

    /// The verdict on a path of which the caller has found out whether it is
    /// a directory now: none unless it is.
    pub open spec fn checked_verdict(self, path: PathBuf, is_dir: bool) -> Option<bool> {
        if is_dir {
            Some(self.verdict(path))
        } else {
            None
        }
    }

    /// The filter without patterns.
    pub fn empty() -> (r: Self)
        ensures
            r.patterns().allow() is None,
            r.patterns().deny() is None,
    {
        Self(WbFilter::empty())
    }

    /// A directory filter around a pattern filter.
    pub fn new_filter(filter: WbFilter) -> (r: Self)
        ensures
            r.patterns() == filter,
    {
        Self(filter)
    }

    /// A directory filter from patterns that are compiled already.
    pub fn new_regex(white: Option<Regex>, black: Option<Regex>) -> (r: Self)
        ensures
            r.patterns().allow() == white,
            r.patterns().deny() == black,
    {
        Self(WbFilter::new_regex(white, black))
    }

    /// A directory filter from pattern texts.  The allow-pattern is compiled
    /// first; the first pattern that does not compile is reported and no
    /// filter is made.
    pub fn new(white: Option<&str>, black: Option<&str>) -> (r: Result<Self, PatternError>)
        ensures
            match r {
                Ok(f) => {
                    &&& first_invalid(text_view(white), text_view(black)) is None
                    &&& f.patterns().allow() == expression_of(text_view(white))
                    &&& f.patterns().deny() == expression_of(text_view(black))
                },
                Err(e) => {
                    &&& first_invalid(text_view(white), text_view(black)) matches Some(pattern)
                    &&& e.reports(pattern)
                },
            },
    {
        match WbFilter::new(white, black) {
            Ok(filter) => Ok(Self(filter)),
            Err(e) => Err(e),
        }
    }

    /// Whether the directory is admitted.  `is_dir` says whether `path` is a
    /// directory now, which the caller has looked up; for anything else there
    /// is no verdict.
    pub fn is_allowed(&self, path: &PathBuf, is_dir: bool) -> (r: Option<bool>)
        ensures
            r == self.checked_verdict(*path, is_dir),
    {
        if is_dir {
            Some(self.is_allowed_unchecked(path))
        } else {
            None
        }
    }

    /// Whether the text of `path` is admitted, without asking whether the
    /// path exists.
    pub fn is_allowed_unchecked(&self, path: &PathBuf) -> (r: bool)
        ensures
            r == self.verdict(*path),
    {
        let text = to_slash(path);
        match &text {
            Some(text) => self.0.is_allowed_opt(Some(text.as_str())),
            None => self.0.is_allowed_opt(None),
        }
    }

    /// Whether the directory is refused: the opposite of
    /// [`Self::is_allowed`], where that has a verdict.
    pub fn is_denied(&self, path: &PathBuf, is_dir: bool) -> (r: Option<bool>)
        ensures
            r == negated(self.checked_verdict(*path, is_dir)),
    {
        match self.is_allowed(path, is_dir) {
            Some(allowed) => Some(!allowed),
            None => None,
        }
    }

    /// Whether the text of `path` is refused: the opposite of
    /// [`Self::is_allowed_unchecked`].
    pub fn is_denied_unchecked(&self, path: &PathBuf) -> (r: bool)
        ensures
            r == !self.verdict(*path),
    {
        !self.is_allowed_unchecked(path)
    }
}

} // verus!
