use vstd::prelude::*;

verus! {

/// The path that `std::path::Path::join` builds from a directory and a name.
pub uninterp spec fn joined(dir: Seq<char>, name: Seq<char>) -> Seq<char>;

/// The directory that `std::path::Path::parent` gives for a path, if any.
pub uninterp spec fn parent_of(path: Seq<char>) -> Option<Seq<char>>;

/// The path that `std::path::Path::with_extension` gives for a path and an
/// extension.
pub uninterp spec fn with_extension_of(path: Seq<char>, ext: Seq<char>) -> Seq<char>;

/// Relies on `std::path::Path::join`: the result depends on the two texts alone.
#[verifier::external_body]
pub(crate) fn join_path(dir: &str, name: &str) -> (r: String)
    ensures
        r@ == joined(dir@, name@),
{
    std::path::Path::new(dir).join(name).to_string_lossy().into_owned()
}

/// Relies on `std::path::Path::parent`: the result depends on the text alone,
/// and the empty path has no parent.
#[verifier::external_body]
pub(crate) fn parent_dir(path: &str) -> (r: Option<String>)
    ensures
        match r {
            Some(d) => parent_of(path@) == Some(d@),
            None => parent_of(path@) is None,
        },
        path@.len() == 0 ==> r is None,
{
    std::path::Path::new(path).parent().map(|d| d.to_string_lossy().into_owned())
}

/// Relies on `std::path::Path::with_extension`: the result depends on the
/// path and the extension alone. It panics on an extension holding a path
/// separator, so such extensions are excluded.
#[verifier::external_body]
pub(crate) fn replace_extension(path: &str, ext: &str) -> (r: String)
    requires
        forall|i: int| 0 <= i < ext@.len() ==> ext@[i] != '/' && ext@[i] != '\\',
    ensures
        r@ == with_extension_of(path@, ext@),
{
    std::path::Path::new(path).with_extension(ext).to_string_lossy().into_owned()
}

/// Relies on `which::which`: looks the name up on the search path, or checks
/// that the file a path names exists and is executable. What it finds
/// depends on the environment and the file system, so nothing is promised of
/// it.
#[verifier::external_body]
pub(crate) fn find_executable(name: &str) -> (r: Option<String>) {
    which::which(name).ok().map(|p| p.to_string_lossy().into_owned())
}

} // verus!
