//! Selective clearing of files that keeps their timestamps.
//!
//! The crate decides; its caller touches the file system.  [`filter`] holds
//! the allow/deny pattern filters for file names and directory paths, and
//! [`clear_act`] the order of the steps by which one file is cleared and a
//! directory is walked.

pub mod clear_act;
pub mod filter;

pub use clear_act::{ClearDir, ClearFile};
pub use clear_act::{ConstChangeContD as ConstChgContD, ConstChangeContF as ConstChgContF};
