//! The few `std::path` operations the library relies on.
//!
//! Paths are carried as strings. Each operation of `std::path` used here is
//! given a name for what it returns, so that the contracts elsewhere can speak
//! of it exactly.

use vstd::prelude::*;

verus! {

/// What `Path::parent` gives for a path.
pub uninterp spec fn parent_of(p: Seq<char>) -> Option<Seq<char>>;

/// What `Path::file_name` gives for a path.
pub uninterp spec fn file_name_of(p: Seq<char>) -> Option<Seq<char>>;

/// What `Path::extension` gives for a path.
pub uninterp spec fn extension_of(p: Seq<char>) -> Option<Seq<char>>;

/// The path that `PathBuf::set_extension` leaves behind when given `ext`.
pub uninterp spec fn extension_set(p: Seq<char>, ext: Seq<char>) -> Seq<char>;

/// An extension that holds no dot and no path separator.
pub open spec fn is_plain_extension(ext: Seq<char>) -> bool {
    forall|i: int| 0 <= i < ext.len() ==> ext[i] != '.' && ext[i] != '/' && ext[i] != '\\'
}

/// The characters of an optional string.
pub open spec fn opt_view(o: Option<String>) -> Option<Seq<char>> {
    match o {
        Some(s) => Some(s@),
        None => None,
    }
}

/// Relies on `std::path::Path::parent`: the path without its final component,
/// or nothing when the path ends in a root or is empty.
#[verifier::external_body]
pub(crate) fn path_parent(p: &str) -> (r: Option<String>)
    ensures
        opt_view(r) == parent_of(p@),
{
    match std::path::Path::new(p).parent() {
        Some(d) => Some(d.to_string_lossy().into_owned()),
        None => None,
    }
}

/// Relies on `std::path::Path::file_name`: the final component of the path,
/// if it is a normal one.
#[verifier::external_body]
pub(crate) fn path_file_name(p: &str) -> (r: Option<String>)
    ensures
        opt_view(r) == file_name_of(p@),
{
    match std::path::Path::new(p).file_name() {
        Some(f) => Some(f.to_string_lossy().into_owned()),
        None => None,
    }
}

/// Relies on `std::path::Path::extension`: the part of the file name after
/// its last dot, if any.
#[verifier::external_body]
pub(crate) fn path_extension(p: &str) -> (r: Option<String>)
    ensures
        opt_view(r) == extension_of(p@),
{
    match std::path::Path::new(p).extension() {
        Some(e) => Some(e.to_string_lossy().into_owned()),
        None => None,
    }
}

/// Relies on `std::path::PathBuf::set_extension`: a path without a file name
/// is left as it is; otherwise its extension becomes `ext`.
#[verifier::external_body]
pub(crate) fn set_extension(p: &str, ext: &str) -> (r: String)
    requires
        is_plain_extension(ext@),
    ensures
        r@ == extension_set(p@, ext@),
        file_name_of(p@) is None ==> r@ == p@,
        file_name_of(p@) is Some && ext@.len() > 0 ==> extension_of(r@) == Some(ext@),
{
    let mut buf = std::path::PathBuf::from(p);
    buf.set_extension(ext);
    buf.to_string_lossy().into_owned()
}

} // verus!
