//! Walking a directory, step by step.
//!
//! A [`DirWalk`] decides which directories are listed and which files are
//! cleared, and in which order; its caller lists and clears and reports
//! back.  Directories that are found while one is listed wait on a work
//! list, and the one found last is taken first: the walk calls nothing
//! recursively, however deep the tree is.  A directory is listed only if the
//! walker admits it when its turn comes.  The first failure ends the walk
//! with that failure.

use std::path::PathBuf;
use vstd::prelude::*;

verus! {

/// What an entry of a directory is.
#[derive(Clone, Copy, Debug, PartialEq, Eq)]
pub enum EntryKind {
    /// A directory.
    Directory,
    /// A regular file.
    File,
    /// Neither.
    Other,
}

/// Where a walk stands: what it has asked for last.
#[derive(Clone, Copy, Debug, PartialEq, Eq)]
pub enum WalkStage {
    /// A directory is being looked at, to see whether it is one.
    Examining,
    /// The entries of a directory are being handed in.
    Listing,
    /// A file is being cleared.
    Clearing,
    /// The walk is over.
    Finished,
}

/// What the caller reports back.
#[derive(Debug)]
pub enum WalkEvent<E> {
    /// The path that was to be examined is a directory now, or is not.
    Examined(bool),
    /// The next entry of the directory that is being listed.
    Entry(PathBuf, EntryKind),
    /// The directory that is being listed has no more entries.
    EndOfListing,
    /// The file was cleared.
    Cleared,
    /// The action failed.
    Failed(E),
}

/// What the caller is to do next.
#[derive(Debug, PartialEq, Eq)]
pub enum WalkAction<E> {
    /// Find out whether this path is a directory and report it with
    /// `Examined`.
    Examine(PathBuf),
    /// Open this directory and report its first entry, the end of the
    /// listing, or the failure.
    List(PathBuf),
    /// Report the next entry of the directory that is open, the end of the
    /// listing, or the failure.
    NextEntry,
    /// Clear this file and report `Cleared`, or the failure.
    Clear(PathBuf),
    /// Stop and return this.
    Finish(Result<(), E>),
}

/// What a walk needs to know from the walker before it can go on.
#[derive(Clone, Copy, Debug, PartialEq, Eq)]
pub enum WalkQuery<'a> {
    /// Nothing.
    Nothing,
    /// Whether this path, which is a directory now or is not, is to be
    /// listed.
    DirAllowed(&'a PathBuf, bool),
    /// Whether this directory, found in a listing, is to be walked later.
    Recursive(&'a PathBuf),
}

/// All that a walk remembers.
pub struct WalkState {
    /// What the walk has asked for last.
    pub stage: WalkStage,
    /// The path that is being examined.
    pub examined: Option<PathBuf>,
    /// The directories that wait, the one found last at the end.
    pub pending: Seq<PathBuf>,
}

/// The state of a walk that has just begun on `root`.
pub open spec fn initial(root: PathBuf) -> WalkState {
    WalkState { stage: WalkStage::Examining, examined: Some(root), pending: Seq::empty() }
}

/// What the walk needs to know in `state` on `event`: whether the examined
/// path is to be listed; whether a directory that was found is to be walked.
pub open spec fn query_of<'a, E>(state: &'a WalkState, event: &'a WalkEvent<E>) -> WalkQuery<'a> {
    match (state.stage, event) {
        (WalkStage::Examining, WalkEvent::Examined(is_dir)) => match &state.examined {
            Some(path) => WalkQuery::DirAllowed(path, *is_dir),
            None => WalkQuery::Nothing,
        },
        (WalkStage::Listing, WalkEvent::Entry(path, EntryKind::Directory)) => WalkQuery::Recursive(
            path,
        ),
        _ => WalkQuery::Nothing,
    }
}

/// The step that takes the next directory off the work list: the one found
/// last is examined next, and a walk with none left is over.
pub open spec fn take_next<E>(pending: Seq<PathBuf>) -> (WalkState, WalkAction<E>) {
    if pending.len() == 0 {
        (
            WalkState { stage: WalkStage::Finished, examined: None, pending },
            WalkAction::Finish(Ok(())),
        )
    } else {
        (
            WalkState {
                stage: WalkStage::Examining,
                examined: Some(pending.last()),
                pending: pending.drop_last(),
            },
            WalkAction::Examine(pending.last()),
        )
    }
}

/// The state and the action that follow `state` on `event`, given the
/// walker's `answer`; none where the event does not belong to the stage or a
/// needed answer is missing.
pub open spec fn next<E>(state: WalkState, event: WalkEvent<E>, answer: Option<bool>) -> Option<
    (WalkState, WalkAction<E>),
> {
    match (state.stage, event) {
        (WalkStage::Finished, _) => None,
        (_, WalkEvent::Failed(e)) => Some(
            (
                WalkState { stage: WalkStage::Finished, examined: None, pending: state.pending },
                WalkAction::Finish(Err(e)),
            ),
        ),
        (WalkStage::Examining, WalkEvent::Examined(_)) => match (state.examined, answer) {
            (Some(path), Some(true)) => Some(
                (
                    WalkState { stage: WalkStage::Listing, examined: None, pending: state.pending },
                    WalkAction::List(path),
                ),
            ),
            (Some(_), Some(false)) => Some(take_next(state.pending)),
            _ => None,
        },
        (WalkStage::Listing, WalkEvent::Entry(path, kind)) => match kind {
            EntryKind::Directory => match answer {
                Some(true) => Some(
                    (
                        WalkState {
                            stage: WalkStage::Listing,
                            examined: None,
                            pending: state.pending.push(path),
                        },
                        WalkAction::NextEntry,
                    ),
                ),
                Some(false) => Some(
                    (
                        WalkState {
                            stage: WalkStage::Listing,
                            examined: None,
                            pending: state.pending,
                        },
                        WalkAction::NextEntry,
                    ),
                ),
                None => None,
            },
            EntryKind::File => Some(
                (
                    WalkState {
                        stage: WalkStage::Clearing,
                        examined: None,
                        pending: state.pending,
                    },
                    WalkAction::Clear(path),
                ),
            ),
            EntryKind::Other => Some(
                (
                    WalkState { stage: WalkStage::Listing, examined: None, pending: state.pending },
                    WalkAction::NextEntry,
                ),
            ),
        },
        (WalkStage::Listing, WalkEvent::EndOfListing) => Some(take_next(state.pending)),
        (WalkStage::Clearing, WalkEvent::Cleared) => Some(
            (
                WalkState { stage: WalkStage::Listing, examined: None, pending: state.pending },
                WalkAction::NextEntry,
            ),
        ),
        _ => None,
    }
}

/// The walk of one directory in progress.
#[derive(Debug)]
pub struct DirWalk {
    stage: WalkStage,
    examined: Option<PathBuf>,
    pending: Vec<PathBuf>,
}

impl View for DirWalk {
    type V = WalkState;

    closed spec fn view(&self) -> WalkState {
        WalkState {
            stage: self.stage,
            examined: if self.stage == WalkStage::Examining {
                self.examined
            } else {
                None
            },
            pending: self.pending@,
        }
    }
}

impl DirWalk {
    /// What the walk needs to know before it can take `event`.
    pub open spec fn query_on<E>(&self, event: WalkEvent<E>) -> WalkQuery<'_> {
        query_of(&self@, &event)
    }

    /// This walk is what `before` becomes on `event` with `answer`, and
    /// `action` is what is then to be done: the state and the action that
    /// [`next`] gives, or the walk unchanged and no action where it gives
    /// none.
    pub open spec fn follows<E>(
        self,
        before: DirWalk,
        event: WalkEvent<E>,
        answer: Option<bool>,
        action: Option<WalkAction<E>>,
    ) -> bool {
        match next(before@, event, answer) {
            Some((state, act)) => self@ == state && action == Some(act),
            None => self@ == before@ && action is None,
        }
    }

    /// A new walk of `root`, and its first action: to examine the root.
    pub fn start<E>(root: PathBuf) -> (r: (DirWalk, WalkAction<E>))
        ensures
            r.0@ == initial(root),
            r.1 == WalkAction::<E>::Examine(root),
    {
        let action = WalkAction::Examine(root.clone());
        (DirWalk { stage: WalkStage::Examining, examined: Some(root), pending: Vec::new() }, action)
    }

    /// Where the walk stands.
    pub fn current(&self) -> (stage: WalkStage)
        ensures
            stage == self@.stage,
    {
        self.stage
    }

    /// How many directories wait.
    pub fn waiting(&self) -> (n: usize)
        ensures
            n == self@.pending.len(),
    {
        self.pending.len()
    }

    /// What the walk needs to know from the walker before it can take
    /// `event`.
    pub fn query<'a, E>(&'a self, event: &'a WalkEvent<E>) -> (query: WalkQuery<'a>)
        ensures
            query == self.query_on(*event),
    {
        match (self.stage, event) {
            (WalkStage::Examining, WalkEvent::Examined(is_dir)) => match &self.examined {
                Some(path) => WalkQuery::DirAllowed(path, *is_dir),
                None => WalkQuery::Nothing,
            },
            (WalkStage::Listing, WalkEvent::Entry(path, EntryKind::Directory)) => {
                WalkQuery::Recursive(path)
            },
            _ => WalkQuery::Nothing,
        }
    }

    /// Takes the next directory off the work list.
    fn choose_next<E>(&mut self) -> (action: WalkAction<E>)
        ensures
            (final(self)@, action) == take_next::<E>(old(self).pending@),
    {
        match self.pending.pop() {
            Some(path) => {
                let action = WalkAction::Examine(path.clone());
                self.stage = WalkStage::Examining;
                self.examined = Some(path);
                action
            },
            None => {
                self.stage = WalkStage::Finished;
                self.examined = None;
                WalkAction::Finish(Ok(()))
            },
        }
    }

    /// Takes `event` and says what to do next.  Where the event does not
    /// belong to the stage, or a needed answer is missing, the walk stays
    /// where it is and there is no action.
    pub fn advance<E>(&mut self, event: WalkEvent<E>, answer: Option<bool>) -> (action: Option<
        WalkAction<E>,
    >)
        ensures
            final(self).follows(*old(self), event, answer, action),
    {
        match (self.stage, event) {
            (WalkStage::Finished, _) => None,
            (_, WalkEvent::Failed(e)) => {
                self.stage = WalkStage::Finished;
                Some(WalkAction::Finish(Err(e)))
            },
            (WalkStage::Examining, WalkEvent::Examined(_)) => {
                if self.examined.is_none() {
                    return None;
                }
                match answer {
                    Some(true) => {
                        let path = self.examined.take().unwrap();
                        self.stage = WalkStage::Listing;
                        Some(WalkAction::List(path))
                    },
                    Some(false) => Some(self.choose_next()),
                    None => None,
                }
            },
            (WalkStage::Listing, WalkEvent::Entry(path, kind)) => match kind {
                EntryKind::Directory => match answer {
                    Some(true) => {
                        self.pending.push(path);
                        Some(WalkAction::NextEntry)
                    },
                    Some(false) => Some(WalkAction::NextEntry),
                    None => None,
                },
                EntryKind::File => {
                    self.stage = WalkStage::Clearing;
                    Some(WalkAction::Clear(path))
                },
                EntryKind::Other => Some(WalkAction::NextEntry),
            },
            (WalkStage::Listing, WalkEvent::EndOfListing) => Some(self.choose_next()),
            (WalkStage::Clearing, WalkEvent::Cleared) => {
                self.stage = WalkStage::Listing;
                Some(WalkAction::NextEntry)
            },
            _ => None,
        }
    }
}

} // verus!
