//! Clearing files and walking directories, as decisions.

pub mod const_change_cont;
pub mod dir_walk;
pub mod file_model;
pub mod file_run;
pub mod times;
pub mod traits;
pub mod walk_model;

pub use const_change_cont::{ConstChangeContD, ConstChangeContF};
pub use traits::{ClearDir, ClearFile};
