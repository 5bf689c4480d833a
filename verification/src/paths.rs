//! What `std::path` computes on path text, and what it finds on disk. Each
//! function makes one call of `std::path::Path`; a result computed from the
//! text is named, and the path rules themselves (components, separators,
//! dots) are std's and are not restated.

use vstd::prelude::*;

use crate::text::opt_view;

verus! {

/// `Path::parent`: the path without its final component, if it has one.
pub uninterp spec fn parent_of(path: Seq<char>) -> Option<Seq<char>>;

/// `Path::extension`: the text after the last dot of the file name, if any.
pub uninterp spec fn extension_of(path: Seq<char>) -> Option<Seq<char>>;

/// `Path::file_name`: the final component, when it is a name.
pub uninterp spec fn file_name_of(path: Seq<char>) -> Option<Seq<char>>;

/// `Path::strip_prefix`: the rest of `path` when `base` is a prefix of it,
/// component by component.
pub uninterp spec fn strip_prefix_of(path: Seq<char>, base: Seq<char>) -> Option<Seq<char>>;

/// `Path::join`: `rest` appended to `base` (or `rest` itself when absolute).
pub uninterp spec fn joined_path(base: Seq<char>, rest: Seq<char>) -> Seq<char>;

/// Calls `Path::parent`; the result is the name `parent_of`, and, as the
/// path without its final component, shorter than the path.
#[verifier::external_body]
pub(crate) fn path_parent(path: &str) -> (r: Option<String>)
    ensures
        opt_view(r) == parent_of(path@),
        r matches Some(p) ==> p@.len() < path@.len(),
{
    std::path::Path::new(path).parent().map(|p| p.to_string_lossy().into_owned())
}

/// Calls `Path::extension`; the result is the name `extension_of`.
#[verifier::external_body]
pub(crate) fn path_extension(path: &str) -> (r: Option<String>)
    ensures
        opt_view(r) == extension_of(path@),
{
    std::path::Path::new(path).extension().map(|e| e.to_string_lossy().into_owned())
}

/// Calls `Path::file_name`; the result is the name `file_name_of`.
#[verifier::external_body]
pub(crate) fn path_file_name(path: &str) -> (r: Option<String>)
    ensures
        opt_view(r) == file_name_of(path@),
{
    std::path::Path::new(path).file_name().map(|n| n.to_string_lossy().into_owned())
}

/// Calls `Path::strip_prefix`; the result is the name `strip_prefix_of`.
#[verifier::external_body]
pub(crate) fn path_strip_prefix(path: &str, base: &str) -> (r: Option<String>)
    ensures
        opt_view(r) == strip_prefix_of(path@, base@),
{
    std::path::Path::new(path).strip_prefix(base).ok().map(|p| p.to_string_lossy().into_owned())
}

/// Calls `Path::join`; the result is the name `joined_path`. What its
/// documentation gives beside the name is also stated: an absolute `rest`
/// (on Unix, where AtFlow runs, one that begins with `/`) replaces the
/// base. How a separator goes between the two is left to the name.
#[verifier::external_body]
pub(crate) fn path_join(base: &str, rest: &str) -> (r: String)
    ensures
        r@ == joined_path(base@, rest@),
        rest@.len() > 0 && rest@[0] == '/' ==> r@ == rest@,
{
    std::path::Path::new(base).join(rest).to_string_lossy().into_owned()
}


/// Calls `Path::exists`: whether something is at `path` on disk now.
/// Nothing is stated of the result: it depends on the disk.
#[verifier::external_body]
pub(crate) fn path_exists(path: &str) -> (r: bool) {
    std::path::Path::new(path).exists()
}

/// Calls `Path::is_dir`: whether `path` is a directory on disk now.
/// Nothing is stated of the result: it depends on the disk.
#[verifier::external_body]
pub(crate) fn path_is_dir(path: &str) -> (r: bool) {
    std::path::Path::new(path).is_dir()
}


/// Calls `Path::canonicalize`: the absolute path with every link resolved,
/// when the disk can give it. Which path that is depends on the disk; what
/// its documentation gives of every answer is that it is absolute (on
/// Unix, where AtFlow runs, it begins with `/`).
#[verifier::external_body]
pub(crate) fn path_canonical(path: &str) -> (r: Option<String>)
    ensures
        r matches Some(p) ==> p@.len() > 0 && p@[0] == '/',
{
    std::path::Path::new(path).canonicalize().ok().map(|p| p.to_string_lossy().into_owned())
}

} // verus!
