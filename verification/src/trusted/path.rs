//! File paths, as `std::path` holds them.

use std::path::PathBuf;
use vstd::prelude::*;

verus! {

#[verifier::external_type_specification]
#[verifier::external_body]
pub struct ExPathBuf(PathBuf);

/// The extension of a path as text, or `None` where the path has none.
pub uninterp spec fn path_extension(path: &PathBuf) -> Option<Seq<char>>;

/// `Path::extension`, with the extension turned into text by
/// `OsStr::to_string_lossy`: what follows the last dot of the file name, or
/// `None` where `Path::extension` finds none. Bytes that are not Unicode
/// come out as the replacement character.
#[verifier::external_body]
pub(crate) fn extension(path: &PathBuf) -> (text: Option<String>)
    ensures
        match text {
            Some(t) => path_extension(path) == Some(t@),
            None => path_extension(path) is None,
        },
{
    match path.extension() {
        Some(extension) => Some(extension.to_string_lossy().into_owned()),
        None => None,
    }
}

} // verus!
