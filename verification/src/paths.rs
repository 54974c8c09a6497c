//! The standard library's path operations the engine relies on. Paths are handled as strings;
//! each operation sits behind a small trusted function and what it returns is named by a spec
//! function of its arguments.
use vstd::prelude::*;

verus! {

/// `Path::file_stem`: the file name without its final extension.
pub uninterp spec fn path_file_stem(path: Seq<char>) -> Option<Seq<char>>;

/// `Path::extension`: the text after the file name's final dot.
pub uninterp spec fn path_extension(path: Seq<char>) -> Option<Seq<char>>;

/// `Path::parent`: the path without its final component.
pub uninterp spec fn path_parent(path: Seq<char>) -> Option<Seq<char>>;

/// `Path::join`: `child` appended to `base` as a new component (or replacing it when absolute).
pub uninterp spec fn path_joined(base: Seq<char>, child: Seq<char>) -> Seq<char>;

/// `Path == Path`: the two paths have the same components.
pub uninterp spec fn path_same(a: Seq<char>, b: Seq<char>) -> bool;

/// `Path::starts_with`: `base`'s components are a prefix of `path`'s.
pub uninterp spec fn path_has_prefix(path: Seq<char>, base: Seq<char>) -> bool;

/// `Path::file_stem` on a UTF-8 path (so the stem converts to a string without loss). Claims the
/// result is [`path_file_stem`].
#[verifier::external_body]
pub(crate) fn file_stem(path: &str) -> (r: Option<String>)
    ensures
        match r {
            Some(s) => path_file_stem(path@) == Some(s@),
            None => path_file_stem(path@) is None,
        },
{
    std::path::Path::new(path).file_stem().map(|s| s.to_string_lossy().into_owned())
}

/// `Path::extension` on a UTF-8 path. Claims the result is [`path_extension`].
#[verifier::external_body]
pub(crate) fn extension(path: &str) -> (r: Option<String>)
    ensures
        match r {
            Some(s) => path_extension(path@) == Some(s@),
            None => path_extension(path@) is None,
        },
{
    std::path::Path::new(path).extension().map(|s| s.to_string_lossy().into_owned())
}

/// `Path::parent` on a UTF-8 path. Claims the result is [`path_parent`].
#[verifier::external_body]
pub(crate) fn parent(path: &str) -> (r: Option<String>)
    ensures
        match r {
            Some(s) => path_parent(path@) == Some(s@),
            None => path_parent(path@) is None,
        },
{
    std::path::Path::new(path).parent().map(|p| p.to_string_lossy().into_owned())
}

/// `Path::join` of two UTF-8 paths. Claims the result is [`path_joined`].
#[verifier::external_body]
pub(crate) fn join(base: &str, child: &str) -> (r: String)
    ensures
        r@ == path_joined(base@, child@),
{
    std::path::Path::new(base).join(child).to_string_lossy().into_owned()
}

/// `Path == Path`. Claims the result is [`path_same`], and that a path is the same as itself
/// (equality of paths compares their components, which equal strings share).
#[verifier::external_body]
pub(crate) fn same_path(a: &str, b: &str) -> (r: bool)
    ensures
        r == path_same(a@, b@),
        a@ == b@ ==> r,
{
    std::path::Path::new(a) == std::path::Path::new(b)
}

/// `Path::starts_with`. Claims the result is [`path_has_prefix`].
#[verifier::external_body]
pub(crate) fn has_prefix(path: &str, base: &str) -> (r: bool)
    ensures
        r == path_has_prefix(path@, base@),
{
    std::path::Path::new(path).starts_with(base)
}

} // verus!
