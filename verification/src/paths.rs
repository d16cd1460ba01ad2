//! Path questions answered by `std::path::Path`, on paths held as strings.
use vstd::prelude::*;
use vstd::string::*;

verus! {

/// What `Path::file_name` returns for a path, as characters.
pub uninterp spec fn path_file_name(path: Seq<char>) -> Option<Seq<char>>;

/// What `Path::parent` returns for a path, as characters.
pub uninterp spec fn path_parent(path: Seq<char>) -> Option<Seq<char>>;

/// Whether `Path::eq` (a comparison component by component) holds of two paths.
pub uninterp spec fn paths_equal(a: Seq<char>, b: Seq<char>) -> bool;

/// What `PathBuf::set_file_name` makes of a path and a new file name, as
/// characters.
pub uninterp spec fn path_with_file_name(path: Seq<char>, name: Seq<char>) -> Seq<char>;

/// A Unix path is absolute exactly when it starts at the root.
pub open spec fn spec_is_absolute(path: Seq<char>) -> bool {
    path.len() > 0 && path[0] == '/'
}

/// `Path::file_name`: the final component of the path, if it is a normal
/// component. The result is named, not described: `std::path` decides it.
#[verifier::external_body]
pub(crate) fn file_name(path: &str) -> (res: Option<String>)
    ensures
        match res {
            Some(s) => path_file_name(path@) == Some(s@),
            None => path_file_name(path@).is_none(),
        },
{
    std::path::Path::new(path).file_name().map(|n| n.to_string_lossy().into_owned())
}

/// `Path::parent`: the path without its final component, if there is one.
#[verifier::external_body]
pub(crate) fn parent(path: &str) -> (res: Option<String>)
    ensures
        match res {
            Some(s) => path_parent(path@) == Some(s@),
            None => path_parent(path@).is_none(),
        },
{
    std::path::Path::new(path).parent().map(|p| p.to_string_lossy().into_owned())
}

/// `Path::eq`: two paths are equal when their components are. A path is
/// equal to itself.
#[verifier::external_body]
pub(crate) fn same_path(a: &str, b: &str) -> (res: bool)
    ensures
        res == paths_equal(a@, b@),
        a@ == b@ ==> res,
{
    std::path::Path::new(a) == std::path::Path::new(b)
}

/// `PathBuf::set_file_name`: the path with its final component replaced by
/// `name` (or with `name` pushed when it has no file name).
#[verifier::external_body]
pub(crate) fn with_file_name(path: &str, name: &str) -> (res: String)
    ensures
        res@ == path_with_file_name(path@, name@),
{
    let mut p = std::path::PathBuf::from(path);
    p.set_file_name(name);
    p.to_string_lossy().into_owned()
}

/// Whether a path starts at the root (`Path::is_absolute` on Unix).
pub fn is_absolute(path: &str) -> (res: bool)
    ensures
        res == spec_is_absolute(path@),
{
    crate::text::starts_with_char(path, '/')
}

} // verus!
