//! Paths as the filters see them.
//!
//! A path is an opaque value of the host platform.  The filters read two
//! things off it: the text of its final component, and its whole text with
//! `/` between the components.  Both come from outside this crate and are
//! named here, not proved.

use super::text::{string_view, text_view};
use std::path::PathBuf;
use vstd::prelude::*;

verus! {

/// `std::path::PathBuf`, an owned path.  Nothing of its inside is known
/// here.
#[verifier::external_type_specification]
#[verifier::external_body]
pub struct ExPathBuf(std::path::PathBuf);

/// What `Path::file_name` returns for `path`, as a path of its own: the final
/// component, if the path has one.
pub uninterp spec fn final_component(path: PathBuf) -> Option<PathBuf>;

/// What `Path::to_str` returns for `path`: its text, if the path is valid
/// Unicode.
pub uninterp spec fn unicode_text(path: PathBuf) -> Option<Seq<char>>;

/// What `path_slash::PathExt::to_slash` returns for `path`: its text with `/`
/// as the only separator, if the path is valid Unicode.
pub uninterp spec fn slash_text(path: PathBuf) -> Option<Seq<char>>;

/// `PathBuf::clone` returns a path equal to the one it is given.  Assumed, not
/// proved.
pub assume_specification[ <PathBuf as Clone>::clone ](path: &PathBuf) -> (copy: PathBuf)
    ensures
        copy == *path,
;

/// Calls `Path::file_name` and turns the component into a path of its own.
/// The result is [`final_component`] of the path.  Assumed, not proved.
#[verifier::external_body]
pub(crate) fn file_name(path: &PathBuf) -> (name: Option<PathBuf>)
    ensures
        name == final_component(*path),
{
    path.file_name().map(PathBuf::from)
}

/// Calls `Path::to_str`.  The result is [`unicode_text`] of the path.
/// Assumed, not proved.
#[verifier::external_body]
pub(crate) fn to_text(path: &PathBuf) -> (text: Option<&str>)
    ensures
        text_view(text) == unicode_text(*path),
{
    path.to_str()
}

/// Calls `path_slash::PathExt::to_slash`.  The result is [`slash_text`] of
/// the path.  Assumed, not proved.
#[verifier::external_body]
pub(crate) fn to_slash(path: &PathBuf) -> (text: Option<String>)
    ensures
        string_view(text) == slash_text(*path),
{
    path_slash::PathExt::to_slash(path.as_path()).map(|text| text.into_owned())
}

} // verus!
