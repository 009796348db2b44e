//! Path arithmetic on UTF-8 paths, as the platform's path rules define it.

use camino::{Utf8Path, Utf8PathBuf};
use crate::text::opt_text;
use vstd::prelude::*;

verus! {

/// Whether `child` is a suffix of `path`, whole components only.
pub uninterp spec fn path_ends_with(path: Seq<char>, child: Seq<char>) -> bool;

/// The extension of the final component of `path`, if it has one.
pub uninterp spec fn path_extension(path: Seq<char>) -> Option<Seq<char>>;

/// The final component of `path` without its extension, if there is a final component.
pub uninterp spec fn path_file_stem(path: Seq<char>) -> Option<Seq<char>>;

/// `path` without its final component, if there is one.
pub uninterp spec fn path_parent(path: Seq<char>) -> Option<Seq<char>>;

/// `path` adjoined to `base`.
pub uninterp spec fn path_join(base: Seq<char>, path: Seq<char>) -> Seq<char>;

/// Wraps `Utf8Path::ends_with`: the answer is the one the path rules give
/// for these two texts.
#[verifier::external_body]
pub(crate) fn ends_with(path: &str, child: &str) -> (out: bool)
    ensures
        out == path_ends_with(path@, child@),
{
    Utf8Path::new(path).ends_with(child)
}

/// Wraps `Utf8Path::extension`, copying the extension out of the path.
#[verifier::external_body]
pub(crate) fn extension(path: &str) -> (out: Option<String>)
    ensures
        opt_text(out) == path_extension(path@),
{
    Utf8Path::new(path).extension().map(|s| s.to_owned())
}

/// Wraps `Utf8Path::file_stem`, copying the stem out of the path.
#[verifier::external_body]
pub(crate) fn file_stem(path: &str) -> (out: Option<String>)
    ensures
        opt_text(out) == path_file_stem(path@),
{
    Utf8Path::new(path).file_stem().map(|s| s.to_owned())
}

/// Wraps `Utf8Path::parent`, copying the parent out of the path.
#[verifier::external_body]
pub(crate) fn parent(path: &str) -> (out: Option<String>)
    ensures
        opt_text(out) == path_parent(path@),
{
    Utf8Path::new(path).parent().map(|p| p.as_str().to_owned())
}

/// Wraps `Utf8Path::join`, returning the joined path as text.
#[verifier::external_body]
pub(crate) fn join(base: &str, path: &str) -> (out: String)
    ensures
        out@ == path_join(base@, path@),
{
    Utf8PathBuf::from(base).join(path).into_string()
}

} // verus!
