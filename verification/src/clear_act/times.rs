//! Timestamps of a file, as they are recorded before the file is rewritten.

use filetime::FileTime;
use std::time::SystemTime;
use vstd::prelude::*;

verus! {

/// `std::time::SystemTime`, an instant as a file's metadata reports it.
/// Nothing of its inside is known here.
#[verifier::external_type_specification]
#[verifier::external_body]
pub struct ExSystemTime(std::time::SystemTime);

/// `filetime::FileTime`, an instant as it is set on a file.  Nothing of its
/// inside is known here.
#[verifier::external_type_specification]
#[verifier::external_body]
pub struct ExFileTime(filetime::FileTime);

/// What `SystemTime::duration_since` returns for `time` with the Unix epoch
/// as the earlier instant, in whole seconds and nanoseconds: how long after
/// the epoch the instant lies, or how long before it.
pub uninterp spec fn epoch_offset(time: SystemTime) -> Result<(u64, u32), (u64, u32)>;

/// What `FileTime::from_system_time` returns for `time`: the same instant in
/// the form in which it can be set on a file.
pub uninterp spec fn file_time_of(time: SystemTime) -> FileTime;

/// The instant can be turned into a time of a file: it lies less than 2^63
/// whole seconds before the Unix epoch.
pub open spec fn is_settable(time: SystemTime) -> bool {
    match epoch_offset(time) {
        Ok(_) => true,
        Err(before) => before.0 < 0x8000_0000_0000_0000u64,
    }
}

/// Calls `SystemTime::duration_since` with `UNIX_EPOCH` and takes the
/// seconds and nanoseconds out of the duration that comes back, be it the
/// time since the epoch or the time until it.  The result is
/// [`epoch_offset`] of the instant.  Assumed, not proved.
#[verifier::external_body]
fn since_epoch(time: SystemTime) -> (offset: Result<(u64, u32), (u64, u32)>)
    ensures
        offset == epoch_offset(time),
{
    match time.duration_since(std::time::UNIX_EPOCH) {
        Ok(after) => Ok((after.as_secs(), after.subsec_nanos())),
        Err(before) => Err((before.duration().as_secs(), before.duration().subsec_nanos())),
    }
}

/// `FileTime::from_system_time` depends on the instant alone; its result is
/// [`file_time_of`] of it.  For an instant before the epoch it negates the
/// whole seconds until the epoch as an `i64`, which overflows for 2^63 of
/// them: such an instant is left out.  Assumed, not proved.
pub assume_specification[ FileTime::from_system_time ](time: SystemTime) -> (r: FileTime)
    requires
        is_settable(time),
    ensures
        r == file_time_of(time),
;

/// The instant in the form in which it can be set on a file; none for an
/// instant that cannot be turned into one.
pub fn file_time(time: SystemTime) -> (r: Option<FileTime>)
    ensures
        r == if is_settable(time) {
            Some(file_time_of(time))
        } else {
            None
        },
{
    let settable = match since_epoch(time) {
        Ok(_) => true,
        Err(before) => before.0 < 0x8000_0000_0000_0000u64,
    };
    if settable {
        Some(FileTime::from_system_time(time))
    } else {
        None
    }
}

/// The metadata snapshot of a file: when it was last modified and last
/// accessed.
#[derive(Clone, Copy, Debug, PartialEq, Eq)]
pub struct FileTimes {
    /// Time of the last modification.
    pub modified: FileTime,
    /// Time of the last access.
    pub accessed: FileTime,
}

/// What reading a path's metadata has shown.  The two times are those that
/// the metadata reports, or the error with which it refuses one.
#[derive(Debug)]
pub struct Probe<E> {
    /// Whether the path is a regular file.
    pub is_file: bool,
    /// Time of the last modification.
    pub modified: Result<SystemTime, E>,
    /// Time of the last access.
    pub accessed: Result<SystemTime, E>,
}

impl<E> Probe<E> {
    /// The probe is of a regular file and both times could be read.
    pub open spec fn is_timed_file(self) -> bool {
        self.is_file && self.modified is Ok && self.accessed is Ok
    }

    /// The probe is of a regular file, both times could be read, and both
    /// can be set on a file again.
    pub open spec fn is_clearable(self) -> bool {
        &&& self.is_timed_file()
        &&& is_settable(self.modified->Ok_0)
        &&& is_settable(self.accessed->Ok_0)
    }

    /// The snapshot that the probe gives, where both times could be read.
    pub open spec fn snapshot(self) -> FileTimes
        recommends
            self.modified is Ok,
            self.accessed is Ok,
    {
        FileTimes {
            modified: file_time_of(self.modified->Ok_0),
            accessed: file_time_of(self.accessed->Ok_0),
        }
    }
}

} // verus!
