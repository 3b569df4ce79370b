//! Path operations on textual paths, through `std::path`.
use vstd::prelude::*;

verus! {

/// What `Path::parent` gives for a path, as text.
pub uninterp spec fn parent_of(path: Seq<char>) -> Option<Seq<char>>;

/// `std::path::Path::parent`, converted to text; named `parent_of`.
#[verifier::external_body]
pub(crate) fn path_parent(path: &str) -> (r: Option<String>)
    ensures
        r matches Some(p) ==> parent_of(path@) == Some(p@),
        r is None ==> parent_of(path@) is None,
{
    std::path::Path::new(path).parent().map(|p| p.to_string_lossy().into_owned())
}

/// What `Path::file_name` gives for a path, as text.
pub uninterp spec fn file_name_of(path: Seq<char>) -> Option<Seq<char>>;

/// `std::path::Path::file_name`, converted (lossily) to text; named `file_name_of`.
#[verifier::external_body]
pub(crate) fn path_file_name(path: &str) -> (r: Option<String>)
    ensures
        r matches Some(p) ==> file_name_of(path@) == Some(p@),
        r is None ==> file_name_of(path@) is None,
{
    std::path::Path::new(path).file_name().map(|n| n.to_string_lossy().into_owned())
}

/// What `Path::strip_prefix` gives for a path and a base, as text.
pub uninterp spec fn relative_to(path: Seq<char>, base: Seq<char>) -> Option<Seq<char>>;

/// `std::path::Path::strip_prefix`, converted to text; named `relative_to`.
#[verifier::external_body]
pub(crate) fn path_strip_prefix(path: &str, base: &str) -> (r: Option<String>)
    ensures
        r matches Some(p) ==> relative_to(path@, base@) == Some(p@),
        r is None ==> relative_to(path@, base@) is None,
{
    std::path::Path::new(path).strip_prefix(base).ok().map(|p| p.to_string_lossy().into_owned())
}

/// Whether `Path` equality (component-wise) holds between two paths.
pub uninterp spec fn same_path(a: Seq<char>, b: Seq<char>) -> bool;

/// `==` on `std::path::Path`, which compares components; named `same_path`.
#[verifier::external_body]
pub(crate) fn paths_equal(a: &str, b: &str) -> (r: bool)
    ensures
        r == same_path(a@, b@),
{
    std::path::Path::new(a) == std::path::Path::new(b)
}

/// The components `Path::components` yields for a path, as texts.
pub uninterp spec fn components_of(path: Seq<char>) -> Seq<Seq<char>>;

/// `std::path::Path::components`, each converted (lossily) to text;
/// named `components_of`.
#[verifier::external_body]
pub(crate) fn path_components(path: &str) -> (r: Vec<String>)
    ensures
        r@.map_values(|s: String| s@) == components_of(path@),
{
    std::path::Path::new(path).components().map(|c| c.as_os_str().to_string_lossy().into_owned()).collect()
}

/// What `Path::join` gives for `base` and `rest`, as (lossy) text.
pub uninterp spec fn joined_path(base: Seq<char>, rest: Seq<char>) -> Seq<char>;

/// `std::path::Path::join`, converted back to text with `to_string_lossy`;
/// named `joined_path`.
#[verifier::external_body]
pub(crate) fn join_path(base: &str, rest: &str) -> (r: String)
    ensures
        r@ == joined_path(base@, rest@),
{
    std::path::Path::new(base).join(rest).to_string_lossy().into_owned()
}

} // verus!
