//! The shipped clearers: every cleared file gets the same new content.

use super::times::FileTimes;
use super::traits::{ClearDir, ClearFile};
use crate::filter::paths::final_component;
use crate::filter::{DirFilter, FileFilter};
use std::path::PathBuf;
use vstd::prelude::*;
use vstd::string::StrSliceExecFns;
use vstd::string::StringSliceAdditionalSpecFns;

verus! {

/// Clears files by giving each the same new content.
pub struct ConstChangeContF<'filter> {
    new_content: &'filter str,
    file_filter: Option<&'filter FileFilter>,
}

impl ConstChangeContF<'static> {
    /// Clears every file to nothing.
    pub fn new_clear_all() -> (r: Self)
        ensures
            r.content() == Seq::<u8>::empty(),
            r.file_filter() is None,
    {
        let r = Self { new_content: "", file_filter: None };
        proof {
            reveal_strlit("");
            assert(r.new_content@ =~= Seq::<char>::empty());
            assert(r.content() =~= Seq::<u8>::empty()) by {
                reveal_with_fuel(vstd::utf8::encode_utf8, 1);
            }
        }
        r
    }
}

impl<'filter> ConstChangeContF<'filter> {
    /// The bytes that a cleared file holds.
    pub closed spec fn content(self) -> Seq<u8> {
        self.new_content.spec_bytes()
    }

    /// The text that a cleared file holds.
    pub closed spec fn text(self) -> Seq<char> {
        self.new_content@
    }

    /// The file filter, if one was given.
    pub closed spec fn file_filter(self) -> Option<FileFilter> {
        match self.file_filter {
            Some(filter) => Some(*filter),
            None => None,
        }
    }

    /// Whether the file at `path` is cleared: with a filter, if the filter
    /// admits the path's name; without one, if the path has a name.
    pub open spec fn admits_file(self, path: PathBuf) -> bool {
        match self.file_filter() {
            Some(filter) => filter.verdict(path) == Some(true),
            None => final_component(path) is Some,
        }
    }

    /// Whether `content` is what this clearer writes into a file.
    pub open spec fn writes(self, content: Vec<u8>) -> bool {
        content@ == self.content()
    }

    /// Clears every file to `new_content`.
    pub fn new_no_filter(new_content: &'filter str) -> (r: Self)
        ensures
            r.text() == new_content@,
            r.content() == new_content.spec_bytes(),
            r.file_filter() is None,
    {
        Self { new_content, file_filter: None }
    }

    /// Clears the files that `file_filter` admits to `new_content`.
    pub fn new(new_content: &'filter str, file_filter: &'filter FileFilter) -> (r: Self)
        ensures
            r.text() == new_content@,
            r.content() == new_content.spec_bytes(),
            r.file_filter() == Some(*file_filter),
    {
        Self { new_content, file_filter: Some(file_filter) }
    }

    /// The content is the encoding of the text, and empty for the empty
    /// text only.
    pub proof fn content_of_text(self)
        ensures
            self.content() == vstd::utf8::encode_utf8(self.text()),
            self.text().len() == 0 <==> self.content().len() == 0,
    {
        let text = self.text();
        reveal_with_fuel(vstd::utf8::encode_utf8, 1);
        if text.len() > 0 {
            vstd::utf8::encode_utf8_first_scalar(text);
            assert(vstd::utf8::encode_scalar(text[0] as u32).len() > 0) by {
                vstd::utf8::char_is_scalar(text[0]);
            }
        }
    }
}

impl<'filter, E> ClearFile<E> for ConstChangeContF<'filter> {
    /// The answer is what the filter says of the path's name, and the
    /// clearer stays as it is.
    open spec fn file_answer(&self, path: PathBuf, allowed: bool, post: &Self) -> bool {
        allowed == self.admits_file(path) && *post == *self
    }

    /// The content is made without fail and is the same for every file, and
    /// the clearer stays as it is.
    open spec fn content_answer(
        &self,
        times: FileTimes,
        content: Result<Vec<u8>, E>,
        post: &Self,
    ) -> bool {
        content matches Ok(bytes) && self.writes(bytes) && *post == *self
    }

    fn is_file_allow(&mut self, path: &PathBuf) -> (allowed: bool) {
        match self.file_filter {
            Some(filter) => filter.is_allowed_unchecked(path).unwrap_or(false),
            None => FileFilter::empty().is_allowed_unchecked(path).unwrap_or(false),
        }
    }

    fn clear_action(&mut self, times: &FileTimes) -> (content: Result<Vec<u8>, E>) {
        Ok(self.new_content.as_bytes_vec())
    }
}

/// Clears the files of directories by giving each the same new content.
///
/// It does not go down into subdirectories unless it is told to.
pub struct ConstChangeContD<'filter> {
    file_chg: ConstChangeContF<'filter>,
    dir_filter: Option<&'filter DirFilter>,
    recursive: bool,
}

impl ConstChangeContD<'static> {
    /// Clears every file of every directory to nothing.
    pub fn new_clear_all() -> (r: Self)
        ensures
            r.files().content() == Seq::<u8>::empty(),
            r.files().file_filter() is None,
            r.dir_filter() is None,
            !r.recursive(),
    {
        Self { file_chg: ConstChangeContF::new_clear_all(), dir_filter: None, recursive: false }
    }
}

impl<'filter> ConstChangeContD<'filter> {
    /// The clearer that the files are put to.
    pub closed spec fn files(self) -> ConstChangeContF<'filter> {
        self.file_chg
    }

    /// The directory filter, if one was given.
    pub closed spec fn dir_filter(self) -> Option<DirFilter> {
        match self.dir_filter {
            Some(filter) => Some(*filter),
            None => None,
        }
    }

    /// Whether the walk goes down into subdirectories.
    pub closed spec fn recursive(self) -> bool {
        self.recursive
    }

    /// Whether the directory at `path` is listed: only if it is a directory
    /// now and, with a filter, the filter admits its path.
    pub open spec fn admits_dir(self, path: PathBuf, is_dir: bool) -> bool {
        match self.dir_filter() {
            Some(filter) => filter.checked_verdict(path, is_dir) == Some(true),
            None => is_dir,
        }
    }

    /// Clears every file of every directory to `new_content`.
    pub fn new_no_filter(new_content: &'filter str) -> (r: Self)
        ensures
            r.files().text() == new_content@,
            r.files().content() == new_content.spec_bytes(),
            r.files().file_filter() is None,
            r.dir_filter() is None,
            !r.recursive(),
    {
        Self {
            file_chg: ConstChangeContF::new_no_filter(new_content),
            dir_filter: None,
            recursive: false,
        }
    }

    /// Clears every file of the directories that `dir_filter` admits to
    /// `new_content`.
    pub fn new_no_file_filter(new_content: &'filter str, dir_filter: &'filter DirFilter) -> (r:
        Self)
        ensures
            r.files().text() == new_content@,
            r.files().content() == new_content.spec_bytes(),
            r.files().file_filter() is None,
            r.dir_filter() == Some(*dir_filter),
            !r.recursive(),
    {
        Self {
            file_chg: ConstChangeContF::new_no_filter(new_content),
            dir_filter: Some(dir_filter),
            recursive: false,
        }
    }

    /// Clears the files that `file_filter` admits, of every directory, to
    /// `new_content`.
    pub fn new_no_dir_filter(new_content: &'filter str, file_filter: &'filter FileFilter) -> (r:
        Self)
        ensures
            r.files().text() == new_content@,
            r.files().content() == new_content.spec_bytes(),
            r.files().file_filter() == Some(*file_filter),
            r.dir_filter() is None,
            !r.recursive(),
    {
        Self {
            file_chg: ConstChangeContF::new(new_content, file_filter),
            dir_filter: None,
            recursive: false,
        }
    }

    /// Clears the files that `file_filter` admits, of the directories that
    /// `dir_filter` admits, to `new_content`.
    pub fn new(
        new_content: &'filter str,
        file_filter: &'filter FileFilter,
        dir_filter: &'filter DirFilter,
    ) -> (r: Self)
        ensures
            r.files().text() == new_content@,
            r.files().content() == new_content.spec_bytes(),
            r.files().file_filter() == Some(*file_filter),
            r.dir_filter() == Some(*dir_filter),
            !r.recursive(),
    {
        Self {
            file_chg: ConstChangeContF::new(new_content, file_filter),
            dir_filter: Some(dir_filter),
            recursive: false,
        }
    }

    /// Says whether the walk goes down into subdirectories.
    pub fn set_recursive(&mut self, recursive: bool)
        ensures
            final(self).recursive() == recursive,
            final(self).files() == old(self).files(),
            final(self).dir_filter() == old(self).dir_filter(),
    {
        self.recursive = recursive
    }
}

impl<'filter, E> ClearFile<E> for ConstChangeContD<'filter> {
    /// The answer is that of the file clearer, and the walker stays as it
    /// is.
    open spec fn file_answer(&self, path: PathBuf, allowed: bool, post: &Self) -> bool {
        allowed == self.files().admits_file(path) && *post == *self
    }

    /// The content is that of the file clearer, and the walker stays as it
    /// is.
    open spec fn content_answer(
        &self,
        times: FileTimes,
        content: Result<Vec<u8>, E>,
        post: &Self,
    ) -> bool {
        content matches Ok(bytes) && self.files().writes(bytes) && *post == *self
    }

    fn is_file_allow(&mut self, path: &PathBuf) -> (allowed: bool) {
        ClearFile::<E>::is_file_allow(&mut self.file_chg, path)
    }

    fn clear_action(&mut self, times: &FileTimes) -> (content: Result<Vec<u8>, E>) {
        self.file_chg.clear_action(times)
    }
}

impl<'filter, E> ClearDir<E> for ConstChangeContD<'filter> {
    /// The answer is what the filter says of the path, for a path that is a
    /// directory now, and the walker stays as it is.
    open spec fn dir_answer(&self, path: PathBuf, is_dir: bool, allowed: bool, post: &Self) -> bool {
        allowed == self.admits_dir(path, is_dir) && *post == *self
    }

    /// The answer is the same for every directory, and the walker stays as
    /// it is.
    open spec fn recursive_answer(&self, path: PathBuf, recursive: bool, post: &Self) -> bool {
        recursive == self.recursive() && *post == *self
    }

    fn is_dir_allow(&mut self, dir_path: &PathBuf, is_dir: bool) -> (allowed: bool) {
        match self.dir_filter {
            Some(filter) => filter.is_allowed(dir_path, is_dir).unwrap_or(false),
            None => DirFilter::empty().is_allowed(dir_path, is_dir).unwrap_or(false),
        }
    }

    fn is_recursive(&mut self, dir_path: &PathBuf) -> (recursive: bool) {
        self.recursive
    }
}

} // verus!
