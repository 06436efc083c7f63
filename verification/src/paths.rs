//! Path arithmetic, done by the standard library on the paths that the
//! pipeline carries as text. The pipeline runs on Unix, and the paths are
//! read by its rules.

use vstd::prelude::*;

verus! {

/// The final component of `path` as `std::path::Path::file_name` gives it on
/// Unix, or `None` where the path has none (it is empty, a root, or ends in
/// `..`).
pub uninterp spec fn path_file_name(path: Seq<char>) -> Option<Seq<char>>;

/// `part` adjoined to `base` as `std::path::Path::join` does it on Unix,
/// where `/` is the one separator: a part that starts with the separator is
/// absolute and stands for the whole; otherwise the part follows the base,
/// with a separator between them unless the base is empty or ends in one.
pub open spec fn path_join(base: Seq<char>, part: Seq<char>) -> Seq<char> {
    if part.len() > 0 && part[0] == '/' {
        part
    } else if base.len() == 0 || base.last() == '/' {
        base + part
    } else {
        base + seq!['/'] + part
    }
}

/// Calls `std::path::Path::file_name`. Trusted: the result is
/// [`path_file_name`] of the path; the component is handed back as text, which
/// loses nothing because the path came in as text.
#[verifier::external_body]
pub(crate) fn file_name(path: &str) -> (name: Option<String>)
    ensures
        match name {
            Some(n) => path_file_name(path@) == Some(n@),
            None => path_file_name(path@).is_none(),
        },
{
    let name = std::path::Path::new(path).file_name()?;
    Some(name.to_string_lossy().into_owned())
}

/// Calls `std::path::Path::join`. Trusted: on Unix the result is
/// [`path_join`] of the two paths; the joined path is handed back as text,
/// which loses nothing because both paths came in as text.
#[verifier::external_body]
pub(crate) fn join(base: &str, part: &str) -> (joined: String)
    ensures
        joined@ == path_join(base@, part@),
{
    std::path::Path::new(base).join(part).to_string_lossy().into_owned()
}

} // verus!
