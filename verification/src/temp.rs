//! Names of temporary files: `{prefix}-{id}{suffix}`, in the temporary
//! directory or beside a target file.  The directory and the unique id (a
//! fresh UUID) come from the caller, so that concurrent runs never pick
//! the same name.
use vstd::prelude::*;
use crate::error::{ErrorView, ForgeKitError};
use crate::paths::{join_path, parent_of, path_joined, path_parent};
use crate::text::{push_str, string_of};

verus! {

broadcast use vstd::string::group_string_axioms;

/// The file name of a temporary file.
pub open spec fn temp_name(prefix: Seq<char>, unique: Seq<char>, suffix: Seq<char>) -> Seq<char> {
    prefix + "-"@ + unique + suffix
}

/// The path of a temporary file beside `path`, or why there is none.
pub open spec fn temp_near(path: Seq<char>, unique: Seq<char>, prefix: Seq<char>, suffix: Seq<char>) -> Result<
    Seq<char>,
    ErrorView,
> {
    match path_parent(path) {
        None => Err(ErrorView::InvalidInput { path, reason: "Path has no parent directory"@ }),
        Some(parent) => Ok(path_joined(parent, temp_name(prefix, unique, suffix))),
    }
}

fn temp_file_name(prefix: &str, unique: &str, suffix: &str) -> (r: String)
    ensures
        r@ == temp_name(prefix@, unique@, suffix@),
{
    let mut name = string_of(prefix);
    push_str(&mut name, "-");
    push_str(&mut name, unique);
    push_str(&mut name, suffix);
    name
}

/// A temporary file in `temp_dir`, the system's temporary directory, named
/// with the unique id `unique`.
pub fn create_temp_file(temp_dir: &str, unique: &str, prefix: &str, suffix: &str) -> (r: Result<String, ForgeKitError>)
    ensures
        r matches Ok(p) && p@ == path_joined(temp_dir@, temp_name(prefix@, unique@, suffix@)),
{
    let name = temp_file_name(prefix, unique, suffix);
    Ok(join_path(temp_dir, name.as_str()))
}

/// A temporary file in the directory of `path`, on the same file system,
/// named with the unique id `unique`; refused for a path without a parent.
pub fn create_temp_file_near(path: &str, unique: &str, prefix: &str, suffix: &str) -> (r: Result<
    String,
    ForgeKitError,
>)
    ensures
        match temp_near(path@, unique@, prefix@, suffix@) {
            Ok(t) => r matches Ok(p) && p@ == t,
            Err(e) => r matches Err(x) && x@ == e,
        },
{
    match parent_of(path) {
        None => Err(
            ForgeKitError::InvalidInput { path: string_of(path), reason: string_of("Path has no parent directory") },
        ),
        Some(parent) => {
            let name = temp_file_name(prefix, unique, suffix);
            Ok(join_path(parent.as_str(), name.as_str()))
        },
    }
}

} // verus!
