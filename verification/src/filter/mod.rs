//! Allow/deny filters over file names and directory paths.

pub mod dir_filter;
pub mod file_filter;
pub mod paths;
pub mod pattern;
pub mod text;
pub mod wb_filter;

pub use dir_filter::DirFilter;
pub use file_filter::FileFilter;
pub use pattern::PatternError;
pub use wb_filter::WbFilter;
