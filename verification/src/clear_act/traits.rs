//! What clears a file, and what walks a directory.
//!
//! An implementor says which files and directories are in scope and what a
//! cleared file is to hold.  What it may answer is its own affair: each trait
//! has, for every question, a relation that the implementor defines and that
//! its answers meet.  The steps that the traits provide are stated over those
//! relations, so that they say exactly what happens for an implementor whose
//! answers are fixed, and no more than is true for one whose answers are
//! free.  In a step that asks nothing the implementor stays as it is.

use super::dir_walk::{DirWalk, WalkAction, WalkEvent, WalkQuery};
use super::file_run::{FileAction, FileAnswer, FileEvent, FileQuery, FileRun};
use super::times::FileTimes;
use std::path::PathBuf;
use vstd::prelude::*;

verus! {

/// Clears single files.  `E` is the failure with which clearing a file can
/// end: the caller's, when an action fails, or the clearer's own, when it
/// cannot make the content.
pub trait ClearFile<E>: Sized {
    /// Whether `is_file_allow` may answer `allowed` on `path` and leave
    /// `post` behind.  An implementor that does not say may answer anything.
    open spec fn file_answer(&self, path: PathBuf, allowed: bool, post: &Self) -> bool {
        true
    }

    /// Whether `clear_action` may give `content` for a file with the snapshot
    /// `times` and leave `post` behind.  An implementor that does not say may
    /// give anything.
    open spec fn content_answer(
        &self,
        times: FileTimes,
        content: Result<Vec<u8>, E>,
        post: &Self,
    ) -> bool {
        true
    }

    /// Should the file be cleared?  The path is known to be a regular file.
    fn is_file_allow(&mut self, path: &PathBuf) -> (allowed: bool)
        ensures
            old(self).file_answer(*path, allowed, final(self)),
    ;

    /// What the file is to hold once it is cleared, or the failure to make
    /// it; nothing is written for no bytes.  The file is truncated by then.
    /// `times` is the snapshot taken before the file was opened.
    fn clear_action(&mut self, times: &FileTimes) -> (content: Result<Vec<u8>, E>)
        ensures
            old(self).content_answer(*times, content, final(self)),
    ;

    /// One step in clearing the file at `path`: takes what the caller reports
    /// and says what to do next, asking the clearer where the run needs to
    /// know something.  Where the event does not belong to the run's stage
    /// there is no action, and the run stays where it is.
    fn clear_file(&mut self, path: &PathBuf, run: &mut FileRun, event: FileEvent<E>) -> (action:
        Option<FileAction<E>>)
        ensures
            exists|answer: FileAnswer<E>|
                {
                    &&& #[trigger] final(run).follows(*old(run), event, answer, action)
                    &&& match old(run).query_on(event) {
                        FileQuery::Nothing => answer == FileAnswer::<E>::Nothing && *final(self) == *old(
                            self,
                        ),
                        FileQuery::Allowed => answer matches FileAnswer::Allowed(allowed) && old(
                            self,
                        ).file_answer(*path, allowed, final(self)),
                        FileQuery::Content(times) => answer matches FileAnswer::Content(content)
                            && old(self).content_answer(times, content, final(self)),
                    }
                },
    {
        let answer = match run.query(&event) {
            FileQuery::Nothing => FileAnswer::Nothing,
            FileQuery::Allowed => FileAnswer::Allowed(self.is_file_allow(path)),
            FileQuery::Content(times) => FileAnswer::Content(self.clear_action(&times)),
        };
        let action = run.advance(event, answer);
        proof {
            assert(run.follows(*old(run), event, answer, action));
        }
        action
    }
}

/// Clears the files of directories.
pub trait ClearDir<E>: ClearFile<E> {
    /// Whether `is_dir_allow` may answer `allowed` on `path`, which is a
    /// directory now or is not, and leave `post` behind.  An implementor that
    /// does not say may answer anything.
    open spec fn dir_answer(&self, path: PathBuf, is_dir: bool, allowed: bool, post: &Self) -> bool {
        true
    }

    /// Whether `is_recursive` may answer `recursive` on `path` and leave
    /// `post` behind.  An implementor that does not say may answer anything.
    open spec fn recursive_answer(&self, path: PathBuf, recursive: bool, post: &Self) -> bool {
        true
    }

    /// Should the directory be listed?  `is_dir` says whether the path is a
    /// directory now, which the caller has looked up.
    fn is_dir_allow(&mut self, dir_path: &PathBuf, is_dir: bool) -> (allowed: bool)
        ensures
            old(self).dir_answer(*dir_path, is_dir, allowed, final(self)),
    ;

    /// Should the walk go down into this directory, which it has found in a
    /// listing?
    fn is_recursive(&mut self, dir_path: &PathBuf) -> (recursive: bool)
        ensures
            old(self).recursive_answer(*dir_path, recursive, final(self)),
    ;

    /// One step in walking a directory: takes what the caller reports and
    /// says what to do next, asking the walker where the walk needs to know
    /// something.  Where the event does not belong to the walk's stage there
    /// is no action, and the walk stays where it is.
    fn clear_dir_files(&mut self, walk: &mut DirWalk, event: WalkEvent<E>) -> (action: Option<
        WalkAction<E>,
    >)
        ensures
            exists|answer: Option<bool>|
                {
                    &&& #[trigger] final(walk).follows(*old(walk), event, answer, action)
                    &&& match old(walk).query_on(event) {
                        WalkQuery::Nothing => answer is None && *final(self) == *old(self),
                        WalkQuery::DirAllowed(path, is_dir) => answer matches Some(allowed) && old(
                            self,
                        ).dir_answer(*path, is_dir, allowed, final(self)),
                        WalkQuery::Recursive(path) => answer matches Some(recursive) && old(
                            self,
                        ).recursive_answer(*path, recursive, final(self)),
                    }
                },
    {
        let answer = match walk.query(&event) {
            WalkQuery::Nothing => None,
            WalkQuery::DirAllowed(path, is_dir) => Some(self.is_dir_allow(path, is_dir)),
            WalkQuery::Recursive(path) => Some(self.is_recursive(path)),
        };
        let action = walk.advance(event, answer);
        proof {
            assert(walk.follows(*old(walk), event, answer, action));
        }
        action
    }
}

} // verus!
