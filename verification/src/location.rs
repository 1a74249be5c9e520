//! Where the data file lives: `todolist/todos.json` under the user's
//! local data directory.

use vstd::prelude::*;
use std::path::PathBuf;
use crate::error::{PathError, PathErrorView, StoreError, StoreErrorView};

verus! {

/// `std::path::PathBuf`, taken as it is.
#[verifier::external_type_specification]
#[verifier::external_body]
pub struct ExPathBuf(std::path::PathBuf);

/// What a path holds: its bytes in the platform's encoding.
pub uninterp spec fn path_units(path: PathBuf) -> Seq<u8>;

/// What `Path::join` makes of a path and a name: the bytes of the path
/// that it returns.
pub uninterp spec fn joined(base: Seq<u8>, name: Seq<char>) -> Seq<u8>;

/// `std::path::Path::join`: the path named by `joined`.
#[verifier::external_body]
fn join(base: &PathBuf, name: &str) -> (path: PathBuf)
    ensures
        path_units(path) == joined(path_units(*base), name@),
{
    base.join(name)
}

/// `dirs::data_local_dir`: the user's local data directory, where the
/// platform names one. What comes back depends on the user's session, so
/// nothing is said of it.
#[verifier::external_body]
fn local_data_dir() -> (found: Option<PathBuf>) {
    dirs::data_local_dir()
}

/// The name of the store's directory under the local data directory.
pub open spec fn dir_name() -> Seq<char> {
    "todolist"@
}

/// The name of the data file in the store's directory.
pub open spec fn file_name() -> Seq<char> {
    "todos.json"@
}

/// The store's directory and the data file in it.
#[derive(Debug, PartialEq, Eq)]
pub struct DataLocation {
    /// The directory, to be created before the file is touched.
    pub dir: PathBuf,
    /// The data file.
    pub file: PathBuf,
}

impl DataLocation {
    /// The location lies under the given base directory.
    pub open spec fn is_under(self, base: Seq<u8>) -> bool {
        &&& path_units(self.dir) == joined(base, dir_name())
        &&& path_units(self.file) == joined(joined(base, dir_name()), file_name())
    }

    /// The data file's path once the caller has tried to create the
    /// directory: the path where that went well, `DirectoryCreateFailed`
    /// with the complaint where it did not.
    pub fn file_once_created(self, created: Result<(), String>) -> (outcome: Result<
        PathBuf,
        StoreError,
    >)
        ensures
            match created {
                Ok(_) => outcome == Ok::<PathBuf, StoreError>(self.file),
                Err(complaint) => outcome matches Err(error) && error@
                    == StoreErrorView::PathResolutionFailed(
                    PathErrorView::DirectoryCreateFailed(complaint@),
                ),
            },
    {
        match created {
            Ok(_) => Ok(self.file),
            Err(complaint) => Err(
                StoreError::PathResolutionFailed(PathError::DirectoryCreateFailed(complaint)),
            ),
        }
    }
}

/// The store's location under a local data directory, or
/// `DirectoryUnavailable` where the platform named none.
pub fn locate_under(base: Option<PathBuf>) -> (outcome: Result<DataLocation, StoreError>)
    ensures
        match base {
            Some(base) => outcome matches Ok(location) && location.is_under(path_units(base)),
            None => outcome matches Err(error) && error@ == StoreErrorView::PathResolutionFailed(
                PathErrorView::DirectoryUnavailable,
            ),
        },
{
    match base {
        None => Err(StoreError::PathResolutionFailed(PathError::DirectoryUnavailable)),
        Some(base) => {
            let dir = join(&base, "todolist");
            let file = join(&dir, "todos.json");
            Ok(DataLocation { dir, file })
        },
    }
}

/// The store's location for the current user.
pub fn locate() -> (outcome: Result<DataLocation, StoreError>)
    ensures
        match outcome {
            Ok(location) => exists|base: Seq<u8>| location.is_under(base),
            Err(error) => error@ == StoreErrorView::PathResolutionFailed(
                PathErrorView::DirectoryUnavailable,
            ),
        },
{
    let base = local_data_dir();
    let ghost units = if base is Some { path_units(base->0) } else { Seq::empty() };
    let outcome = locate_under(base);
    proof {
        if outcome is Ok {
            assert(outcome->Ok_0.is_under(units));
        }
    }
    outcome
}

} // verus!
