//! # Paths
//!
//! The parts of a file path that the browser asks for. Paths are held as
//! strings; taking them apart and putting them together is left to
//! `std::path`, whose results are known here by name only.

use vstd::prelude::*;

verus! {

/// The final component of `path` as `std::path::Path::file_name` gives it,
/// or `None` where the path has none (it ends in `..`, or is a root or
/// empty).
pub uninterp spec fn base_name(path: Seq<char>) -> Option<Seq<char>>;

/// The extension of the final component of `path` as
/// `std::path::Path::extension` gives it, without the dot, or `None` where
/// there is none.
pub uninterp spec fn extension(path: Seq<char>) -> Option<Seq<char>>;

/// The path of `name` inside `folder` as `std::path::Path::join` gives it.
pub uninterp spec fn joined(folder: Seq<char>, name: Seq<char>) -> Seq<char>;

/// The texts of a list of paths, in order.
pub open spec fn texts(paths: Seq<String>) -> Seq<Seq<char>> {
    paths.map_values(|path: String| path@)
}

/// Calls `std::path::Path::file_name` on `path`. Nothing is proved of the
/// result; it is what `base_name` names.
#[verifier::external_body]
pub(crate) fn file_name(path: &str) -> (name: Option<String>)
    ensures
        match name {
            Some(n) => base_name(path@) == Some(n@),
            None => base_name(path@) is None,
        },
{
    match std::path::Path::new(path).file_name() {
        Some(name) => Some(name.to_string_lossy().into_owned()),
        None => None,
    }
}

/// Calls `std::path::Path::extension` on `path`. Nothing is proved of the
/// result; it is what `extension` names.
#[verifier::external_body]
pub(crate) fn file_extension(path: &str) -> (ext: Option<String>)
    ensures
        match ext {
            Some(e) => extension(path@) == Some(e@),
            None => extension(path@) is None,
        },
{
    match std::path::Path::new(path).extension() {
        Some(ext) => Some(ext.to_string_lossy().into_owned()),
        None => None,
    }
}

/// Calls `std::path::Path::join` on `folder` with `name`. Nothing is proved
/// of the result; it is what `joined` names.
#[verifier::external_body]
pub(crate) fn join(folder: &str, name: &str) -> (path: String)
    ensures
        path@ == joined(folder@, name@),
{
    std::path::Path::new(folder).join(name).to_string_lossy().into_owned()
}

} // verus!
