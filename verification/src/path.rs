//! Where a download lands on the local file system.
//!
//! A local target that is an existing directory is a convenience: the
//! object is then written into that directory under the final component
//! of its remote path. Splitting and joining paths is left to
//! `std::path`, so the rules are those of the platform the crate is
//! built for.

use vstd::prelude::*;
use vstd::pervasive::unreached;
use vstd::string::*;
use crate::text::opt_view;

verus! {

/// The final component of `path` according to `std::path::Path::file_name`,
/// or `None` where that method returns none, as it does for a path that
/// ends in `..`.
pub uninterp spec fn path_file_name(path: Seq<char>) -> Option<Seq<char>>;

/// The path that `std::path::Path::join` builds from `dir` and `name`.
pub uninterp spec fn path_join(dir: Seq<char>, name: Seq<char>) -> Seq<char>;

/// Calls `std::path::Path::file_name` on `path` and hands the component
/// back as text. Only the identity of the result is assumed: it is the
/// value named [`path_file_name`]. The component of a path that came from
/// a string is itself valid text, so the conversion loses nothing.
#[verifier::external_body]
pub(crate) fn file_name(path: &str) -> (name: Option<String>)
    ensures
        opt_view(name) == path_file_name(path@),
{
    match std::path::Path::new(path).file_name() {
        Some(component) => Some(component.to_string_lossy().into_owned()),
        None => None,
    }
}

/// Calls `std::path::Path::join` on `dir` with `name` and hands the
/// joined path back as text. Only the identity of the result is assumed:
/// it is the value named [`path_join`].
#[verifier::external_body]
fn join(dir: &str, name: &str) -> (joined: String)
    ensures
        joined@ == path_join(dir@, name@),
{
    std::path::Path::new(dir).join(name).to_string_lossy().into_owned()
}

/// Where a download goes: into the target itself, or, when the target is
/// a directory, into that directory under the object's base name.
pub open spec fn destination_of(
    local: Seq<char>,
    is_directory: bool,
    name: Option<Seq<char>>,
) -> Seq<char> {
    if is_directory {
        path_join(local, name.unwrap())
    } else {
        local
    }
}

/// Computes the effective local path of a download from the target, from
/// whether the target is an existing directory, and from the base name of
/// the remote path. A directory target needs a base name to extend it.
pub fn destination(local: &str, is_directory: bool, name: &Option<String>) -> (path: String)
    requires
        is_directory ==> name is Some,
    ensures
        path@ == destination_of(local@, is_directory, opt_view(*name)),
        !is_directory ==> path@ == local@,
{
    if is_directory {
        match name {
            Some(component) => join(local, component.as_str()),
            None => unreached(),
        }
    } else {
        local.to_owned()
    }
}

/// The effective local path of a download of `remote` to `local`, or
/// `None` when `local` is a directory and `remote` has no final component
/// to name the file by.
pub fn effective_local_path(local: &str, is_directory: bool, remote: &str) -> (path: Option<String>)
    ensures
        path is None <==> is_directory && path_file_name(remote@) is None,
        path matches Some(p) ==> p@ == destination_of(
            local@,
            is_directory,
            path_file_name(remote@),
        ),
{
    let name = file_name(remote);
    if is_directory && name.is_none() {
        None
    } else {
        Some(destination(local, is_directory, &name))
    }
}

} // verus!
