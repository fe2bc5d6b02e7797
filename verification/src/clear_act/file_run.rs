//! Clearing one file, step by step.
//!
//! A [`FileRun`] decides what is done to one file and in which order; its
//! caller does it and reports back.  The run begins by asking for the file's
//! metadata.  A regular file whose times could be read and which the filter
//! admits is truncated, filled with the new content, closed, and given its
//! old times back; anything else is left alone.  The first failure ends the
//! run with that failure, be it the caller's or the content's.  A file whose
//! times could not be given back is not touched.

use super::times::{file_time, is_settable, FileTimes, Probe};
use vstd::prelude::*;

verus! {

/// Where a run stands: what it has asked for last.
#[derive(Clone, Copy, Debug, PartialEq, Eq)]
pub enum FileStage {
    /// The metadata was asked for.
    Probing,
    /// The file is being opened for writing and truncated.
    Truncating(FileTimes),
    /// The new content is being written.
    Writing(FileTimes),
    /// The write handle is being closed.
    Closing(FileTimes),
    /// The old times are being set again.
    Restoring,
    /// The run is over.
    Finished,
}

/// What the caller reports back.
#[derive(Debug)]
pub enum FileEvent<E> {
    /// The metadata was read.
    Probed(Probe<E>),
    /// The action succeeded.
    Done,
    /// The action failed.
    Failed(E),
}

/// What the caller is to do next.
#[derive(Debug, PartialEq, Eq)]
pub enum FileAction<E> {
    /// Read the metadata of the path and report it with `Probed`, or the
    /// failure to read it with `Failed`.
    ReadMetadata,
    /// Open the file for writing and discard what it holds.
    Truncate,
    /// Write these bytes through the open handle.
    Write(Vec<u8>),
    /// Close the handle, so that what was written has reached the file before
    /// its times are set.
    Close,
    /// Set the file's access and modification times to these.
    RestoreTimes(FileTimes),
    /// Stop and report that the file cannot be cleared with its times kept:
    /// one of them lies too far before the epoch to be set on a file.  The
    /// file is left as it is.
    TimesOutOfRange,
    /// Stop, drop the handle if one is open, and return this.
    Finish(Result<(), E>),
}

/// What a run needs to know from the file clearer before it can go on.
#[derive(Clone, Copy, Debug, PartialEq, Eq)]
pub enum FileQuery {
    /// Nothing.
    Nothing,
    /// Whether the file is to be cleared at all.
    Allowed,
    /// The new content, for a file with this snapshot.
    Content(FileTimes),
}

/// The file clearer's answer to a [`FileQuery`].
#[derive(Debug, PartialEq, Eq)]
pub enum FileAnswer<E> {
    /// Nothing was asked.
    Nothing,
    /// Whether the file is to be cleared.
    Allowed(bool),
    /// The new content, or the failure to make it.
    Content(Result<Vec<u8>, E>),
}

/// What the run needs to know in `stage` on `event`: whether the file is
/// allowed, once a probe has shown a regular file with both times, which can
/// be set again; the content, once the file is truncated.
pub open spec fn query_of<E>(stage: FileStage, event: FileEvent<E>) -> FileQuery {
    match (stage, event) {
        (FileStage::Probing, FileEvent::Probed(probe)) => if probe.is_clearable() {
            FileQuery::Allowed
        } else {
            FileQuery::Nothing
        },
        (FileStage::Truncating(times), FileEvent::Done) => FileQuery::Content(times),
        _ => FileQuery::Nothing,
    }
}

/// The stage and the action that follow `stage` on `event`, given the file
/// clearer's `answer`; none where the event does not belong to the stage or
/// the answer is not one to the stage's query.
pub open spec fn next<E>(stage: FileStage, event: FileEvent<E>, answer: FileAnswer<E>) -> Option<
    (FileStage, FileAction<E>),
> {
    match (stage, event) {
        (FileStage::Finished, _) => None,
        (_, FileEvent::Failed(e)) => Some((FileStage::Finished, FileAction::Finish(Err(e)))),
        (FileStage::Probing, FileEvent::Probed(probe)) => if !probe.is_file {
            Some((FileStage::Finished, FileAction::Finish(Ok(()))))
        } else if probe.modified is Err {
            Some((FileStage::Finished, FileAction::Finish(Err(probe.modified->Err_0))))
        } else if probe.accessed is Err {
            Some((FileStage::Finished, FileAction::Finish(Err(probe.accessed->Err_0))))
        } else if !is_settable(probe.modified->Ok_0) || !is_settable(probe.accessed->Ok_0) {
            Some((FileStage::Finished, FileAction::TimesOutOfRange))
        } else {
            match answer {
                FileAnswer::Allowed(true) => Some(
                    (FileStage::Truncating(probe.snapshot()), FileAction::Truncate),
                ),
                FileAnswer::Allowed(false) => Some(
                    (FileStage::Finished, FileAction::Finish(Ok(()))),
                ),
                _ => None,
            }
        },
        (FileStage::Truncating(times), FileEvent::Done) => match answer {
            FileAnswer::Content(Ok(content)) => if content@.len() == 0 {
                Some((FileStage::Closing(times), FileAction::Close))
            } else {
                Some((FileStage::Writing(times), FileAction::Write(content)))
            },
            FileAnswer::Content(Err(e)) => Some(
                (FileStage::Finished, FileAction::Finish(Err(e))),
            ),
            _ => None,
        },
        (FileStage::Writing(times), FileEvent::Done) => Some(
            (FileStage::Closing(times), FileAction::Close),
        ),
        (FileStage::Closing(times), FileEvent::Done) => Some(
            (FileStage::Restoring, FileAction::RestoreTimes(times)),
        ),
        (FileStage::Restoring, FileEvent::Done) => Some(
            (FileStage::Finished, FileAction::Finish(Ok(()))),
        ),
        _ => None,
    }
}

/// The clearing of one file in progress.
#[derive(Debug)]
pub struct FileRun {
    stage: FileStage,
}

impl FileRun {
    /// Where the run stands.
    pub closed spec fn stage(self) -> FileStage {
        self.stage
    }

    /// What the run needs to know before it can take `event`.
    pub open spec fn query_on<E>(self, event: FileEvent<E>) -> FileQuery {
        query_of(self.stage(), event)
    }

    /// This run is what `before` becomes on `event` with `answer`, and
    /// `action` is what is then to be done: the run and the action that
    /// [`next`] gives, or the run unchanged and no action where it gives
    /// none.
    pub open spec fn follows<E>(
        self,
        before: FileRun,
        event: FileEvent<E>,
        answer: FileAnswer<E>,
        action: Option<FileAction<E>>,
    ) -> bool {
        match next(before.stage(), event, answer) {
            Some((stage, act)) => self.stage() == stage && action == Some(act),
            None => self.stage() == before.stage() && action is None,
        }
    }

    /// A new run, and its first action: to read the file's metadata.
    pub fn start<E>() -> (r: (FileRun, FileAction<E>))
        ensures
            r.0.stage() == FileStage::Probing,
            r.1 == FileAction::<E>::ReadMetadata,
    {
        (FileRun { stage: FileStage::Probing }, FileAction::ReadMetadata)
    }

    /// Where the run stands.
    pub fn current(&self) -> (stage: FileStage)
        ensures
            stage == self.stage(),
    {
        self.stage
    }

    /// What the run needs to know from the file clearer before it can take
    /// `event`.
    pub fn query<E>(&self, event: &FileEvent<E>) -> (query: FileQuery)
        ensures
            query == self.query_on(*event),
    {
        match (self.stage, event) {
            (FileStage::Probing, FileEvent::Probed(probe)) => {
                if !probe.is_file {
                    FileQuery::Nothing
                } else {
                    match (&probe.modified, &probe.accessed) {
                        (Ok(modified), Ok(accessed)) => {
                            if file_time(*modified).is_some() && file_time(*accessed).is_some() {
                                FileQuery::Allowed
                            } else {
                                FileQuery::Nothing
                            }
                        },
                        _ => FileQuery::Nothing,
                    }
                }
            },
            (FileStage::Truncating(times), FileEvent::Done) => FileQuery::Content(times),
            _ => FileQuery::Nothing,
        }
    }

    /// Takes `event` and says what to do next.  Where the event does not
    /// belong to the stage, or the answer is not one to the stage's query,
    /// the run stays where it is and there is no action.
    pub fn advance<E>(&mut self, event: FileEvent<E>, answer: FileAnswer<E>) -> (action: Option<
        FileAction<E>,
    >)
        ensures
            final(self).follows(*old(self), event, answer, action),
    {
        let (stage, action) = match (self.stage, event) {
            (FileStage::Finished, _) => { return None; },
            (_, FileEvent::Failed(e)) => (FileStage::Finished, FileAction::Finish(Err(e))),
            (FileStage::Probing, FileEvent::Probed(probe)) => {
                if !probe.is_file {
                    (FileStage::Finished, FileAction::Finish(Ok(())))
                } else {
                    match (probe.modified, probe.accessed) {
                        (Err(e), _) => (FileStage::Finished, FileAction::Finish(Err(e))),
                        (Ok(_), Err(e)) => (FileStage::Finished, FileAction::Finish(Err(e))),
                        (Ok(modified), Ok(accessed)) => match (
                            file_time(modified),
                            file_time(accessed),
                        ) {
                            (Some(modified), Some(accessed)) => match answer {
                                FileAnswer::Allowed(true) => {
                                    let times = FileTimes { modified, accessed };
                                    (FileStage::Truncating(times), FileAction::Truncate)
                                },
                                FileAnswer::Allowed(false) => (
                                    FileStage::Finished,
                                    FileAction::Finish(Ok(())),
                                ),
                                _ => { return None; },
                            },
                            _ => (FileStage::Finished, FileAction::TimesOutOfRange),
                        },
                    }
                }
            },
            (FileStage::Truncating(times), FileEvent::Done) => match answer {
                FileAnswer::Content(Ok(content)) => {
                    if content.len() == 0 {
                        (FileStage::Closing(times), FileAction::Close)
                    } else {
                        (FileStage::Writing(times), FileAction::Write(content))
                    }
                },
                FileAnswer::Content(Err(e)) => (FileStage::Finished, FileAction::Finish(Err(e))),
                _ => { return None; },
            },
            (FileStage::Writing(times), FileEvent::Done) => (
                FileStage::Closing(times),
                FileAction::Close,
            ),
            (FileStage::Closing(times), FileEvent::Done) => (
                FileStage::Restoring,
                FileAction::RestoreTimes(times),
            ),
            (FileStage::Restoring, FileEvent::Done) => (
                FileStage::Finished,
                FileAction::Finish(Ok(())),
            ),
            _ => { return None; },
        };
        self.stage = stage;
        Some(action)
    }
}

} // verus!
