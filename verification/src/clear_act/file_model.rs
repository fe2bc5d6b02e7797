//! What a run does to a file.
//!
//! The steps of a [`FileRun`](super::file_run::FileRun) are carried out by
//! its caller.  This module says what they amount to when each of them
//! succeeds: it follows a run from the probe to its end, applies every action
//! to a file that is a content and two times, and proves what the file is
//! afterwards.

use super::const_change_cont::ConstChangeContF;
use super::file_run::{next, query_of, FileAction, FileAnswer, FileEvent, FileQuery, FileStage};
use super::times::{FileTimes, Probe};
use vstd::prelude::*;

verus! {

/// A file as far as clearing it shows: what it holds, and its times.
pub struct FileModel {
    /// The bytes that the file holds.
    pub content: Seq<u8>,
    /// When the file was last modified and last accessed.
    pub times: FileTimes,
}

/// The file after `action` has succeeded on it.  Truncating and writing
/// leave the file with `stamps`, the times that the file system gives it
/// then, whatever they are.
pub open spec fn effect<E>(action: FileAction<E>, file: FileModel, stamps: FileTimes) -> FileModel {
    match action {
        FileAction::Truncate => FileModel { content: Seq::empty(), times: stamps },
        FileAction::Write(bytes) => FileModel { content: file.content + bytes@, times: stamps },
        FileAction::RestoreTimes(times) => FileModel { content: file.content, times },
        _ => file,
    }
}

/// The answer of a clearer that allows the file or not, as `allowed` says,
/// and makes `content` for it without fail.
pub open spec fn answer_to<E>(query: FileQuery, allowed: bool, content: Vec<u8>) -> FileAnswer<E> {
    match query {
        FileQuery::Nothing => FileAnswer::Nothing,
        FileQuery::Allowed => FileAnswer::Allowed(allowed),
        FileQuery::Content(_) => FileAnswer::Content(Ok(content)),
    }
}

/// A run in which every action succeeds, followed from `stage` on `event`
/// for at most `steps` steps: the actions in their order, and the file after
/// them.
pub open spec fn run<E>(
    stage: FileStage,
    event: FileEvent<E>,
    allowed: bool,
    content: Vec<u8>,
    file: FileModel,
    stamps: FileTimes,
    steps: nat,
) -> (Seq<FileAction<E>>, FileModel)
    decreases steps,
{
    if steps == 0 {
        (Seq::empty(), file)
    } else {
        match next(stage, event, answer_to(query_of(stage, event), allowed, content)) {
            None => (Seq::empty(), file),
            Some((then, action)) => {
                let changed = effect(action, file, stamps);
                if action is Finish || action is TimesOutOfRange {
                    (seq![action], changed)
                } else {
                    let rest = run(
                        then,
                        FileEvent::<E>::Done,
                        allowed,
                        content,
                        changed,
                        stamps,
                        (steps - 1) as nat,
                    );
                    (seq![action] + rest.0, rest.1)
                }
            },
        }
    }
}

/// The longest run: a probe is followed by five actions at most.
pub open spec fn whole_run<E>(
    probe: Probe<E>,
    allowed: bool,
    content: Vec<u8>,
    file: FileModel,
    stamps: FileTimes,
) -> (Seq<FileAction<E>>, FileModel) {
    run(FileStage::Probing, FileEvent::Probed(probe), allowed, content, file, stamps, 5)
}

/// A regular file that is allowed is truncated, filled with the content if
/// there is any, closed, and given the times of its probe, in that order.
/// Afterwards it holds exactly the content, and nothing for no content, and
/// its times are those of the probe.
pub proof fn cleared_file_holds_content_and_keeps_times<E>(
    probe: Probe<E>,
    content: Vec<u8>,
    file: FileModel,
    stamps: FileTimes,
)
    requires
        probe.is_clearable(),
    ensures
        whole_run(probe, true, content, file, stamps).0 == if content@.len() == 0 {
            seq![
                FileAction::<E>::Truncate,
                FileAction::Close,
                FileAction::RestoreTimes(probe.snapshot()),
                FileAction::Finish(Ok(())),
            ]
        } else {
            seq![
                FileAction::<E>::Truncate,
                FileAction::Write(content),
                FileAction::Close,
                FileAction::RestoreTimes(probe.snapshot()),
                FileAction::Finish(Ok(())),
            ]
        },
        whole_run(probe, true, content, file, stamps).1.content == content@,
        whole_run(probe, true, content, file, stamps).1.times == probe.snapshot(),
        content@.len() == 0 ==> whole_run(probe, true, content, file, stamps).1.content.len() == 0,
{
    reveal_with_fuel(run, 6);
    let done = whole_run(probe, true, content, file, stamps);
    if content@.len() == 0 {
        assert(done.0 =~= seq![
            FileAction::<E>::Truncate,
            FileAction::Close,
            FileAction::RestoreTimes(probe.snapshot()),
            FileAction::Finish(Ok(())),
        ]);
        assert(done.1.content =~= content@);
    } else {
        assert(done.0 =~= seq![
            FileAction::<E>::Truncate,
            FileAction::Write(content),
            FileAction::Close,
            FileAction::RestoreTimes(probe.snapshot()),
            FileAction::Finish(Ok(())),
        ]);
        assert(done.1.content =~= content@);
    }
}

/// Whatever the file system does to a file's times while it is rewritten,
/// a cleared file has the times again that it had when it was probed.
pub proof fn cleared_file_keeps_its_times<E>(
    probe: Probe<E>,
    content: Vec<u8>,
    file: FileModel,
    stamps: FileTimes,
)
    requires
        probe.is_clearable(),
        probe.snapshot() == file.times,
    ensures
        whole_run(probe, true, content, file, stamps).1.times == file.times,
{
    cleared_file_holds_content_and_keeps_times(probe, content, file, stamps);
}

/// What is no regular file, and what the clearer does not allow, is left as
/// it is: the run ends at once and in success.
pub proof fn other_paths_are_left_alone<E>(
    probe: Probe<E>,
    allowed: bool,
    content: Vec<u8>,
    file: FileModel,
    stamps: FileTimes,
)
    requires
        !probe.is_file || (probe.is_clearable() && !allowed),
    ensures
        whole_run(probe, allowed, content, file, stamps) == (
            seq![FileAction::<E>::Finish(Ok(()))],
            file,
        ),
{
    reveal_with_fuel(run, 2);
}

/// A regular file whose times cannot be read is left as it is, and the run
/// ends with the failure to read them: that of the modification time, if
/// both fail.
pub proof fn unreadable_times_end_the_run<E>(
    probe: Probe<E>,
    allowed: bool,
    content: Vec<u8>,
    file: FileModel,
    stamps: FileTimes,
)
    requires
        probe.is_file,
        !probe.is_timed_file(),
    ensures
        whole_run(probe, allowed, content, file, stamps) == (
            seq![
                FileAction::<E>::Finish(
                    Err(
                        if probe.modified is Err {
                            probe.modified->Err_0
                        } else {
                            probe.accessed->Err_0
                        },
                    ),
                ),
            ],
            file,
        ),
{
    reveal_with_fuel(run, 2);
}

/// A file is truncated only in answer to its probe, and the snapshot that
/// the run keeps from then on is the one that the probe gave: the times are
/// recorded before the file is opened for writing.
pub proof fn truncation_follows_the_probe<E>(
    stage: FileStage,
    event: FileEvent<E>,
    answer: FileAnswer<E>,
)
    ensures
        next(stage, event, answer) matches Some((then, FileAction::Truncate)) ==> {
            &&& stage == FileStage::Probing
            &&& event matches FileEvent::Probed(probe) && probe.is_clearable() && then
                == FileStage::Truncating(probe.snapshot())
            &&& answer == FileAnswer::<E>::Allowed(true)
        },
{
}

/// A regular file with a time that cannot be set on a file again is left as
/// it is, whatever the clearer would say to it: the run ends at once and
/// says so.
pub proof fn unsettable_times_leave_the_file<E>(
    probe: Probe<E>,
    allowed: bool,
    content: Vec<u8>,
    file: FileModel,
    stamps: FileTimes,
)
    requires
        probe.is_timed_file(),
        !probe.is_clearable(),
    ensures
        whole_run(probe, allowed, content, file, stamps) == (
            seq![FileAction::<E>::TimesOutOfRange],
            file,
        ),
{
    reveal_with_fuel(run, 2);
}

/// A clearer that fails to make the content ends the run with its failure,
/// once the file is truncated: the file stays empty, and its times are not
/// set again.
pub proof fn content_failure_ends_the_run<E>(times: FileTimes, failure: E)
    ensures
        next(FileStage::Truncating(times), FileEvent::<E>::Done, FileAnswer::Content(Err(failure)))
            == Some((FileStage::Finished, FileAction::Finish(Err(failure)))),
{
}

/// A failure ends every run that is not over, with that failure and without
/// another step.
pub proof fn failure_ends_the_run<E>(stage: FileStage, failure: E, answer: FileAnswer<E>)
    requires
        stage != FileStage::Finished,
    ensures
        next(stage, FileEvent::Failed(failure), answer) == Some(
            (FileStage::Finished, FileAction::Finish(Err(failure))),
        ),
{
}

/// Clearing a cleared file again with the same content changes nothing: the
/// file holds the same content after the second run as after the first, and
/// has the same times, which are those from before the first.
pub proof fn clearing_twice_is_clearing_once<E>(
    first: Probe<E>,
    second: Probe<E>,
    content: Vec<u8>,
    file: FileModel,
    stamps: FileTimes,
    later_stamps: FileTimes,
)
    requires
        first.is_clearable(),
        second.is_clearable(),
        first.snapshot() == file.times,
        second.snapshot() == whole_run(first, true, content, file, stamps).1.times,
    ensures
        whole_run(
            second,
            true,
            content,
            whole_run(first, true, content, file, stamps).1,
            later_stamps,
        ).1 == whole_run(first, true, content, file, stamps).1,
        whole_run(first, true, content, file, stamps).1.times == file.times,
{
    let once = whole_run(first, true, content, file, stamps).1;
    cleared_file_holds_content_and_keeps_times(first, content, file, stamps);
    cleared_file_holds_content_and_keeps_times(second, content, once, later_stamps);
}

/// With the shipped clearer a cleared file holds the bytes of the new text,
/// and is empty exactly when the text is.
pub proof fn shipped_clearer_writes_its_text<E>(
    clearer: ConstChangeContF<'_>,
    probe: Probe<E>,
    content: Vec<u8>,
    file: FileModel,
    stamps: FileTimes,
)
    requires
        probe.is_clearable(),
        clearer.writes(content),
    ensures
        whole_run(probe, true, content, file, stamps).1.content == vstd::utf8::encode_utf8(
            clearer.text(),
        ),
        clearer.text().len() == 0 <==> whole_run(
            probe,
            true,
            content,
            file,
            stamps,
        ).1.content.len() == 0,
{
    cleared_file_holds_content_and_keeps_times(probe, content, file, stamps);
    clearer.content_of_text();
}

} // verus!
