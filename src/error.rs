//! The failures of a run, one variant per kind, each with the path involved
//! and the platform's description of what went wrong.
use vstd::prelude::*;

verus! {

#[derive(Clone, Debug, PartialEq, Eq)]
pub enum XiloError {
    /// No base directory was available to hold the trashbin.
    CannotFindCacheDirPath,
    /// The trashbin directory could not be created.
    XiloInitFailed { path: String, detail: String },
    /// Emptying the trashbin failed.
    RippingTrashbinFailed { path: String, detail: String },
    /// A directory was given without the recursive flag.
    RemoveDirWithoutRecursiveFlag { path: String },
    /// The target has no final component to keep in its archival name.
    NoFileName { path: String },
    /// Moving a file into the trashbin failed.
    RemoveFileFailed { path: String, detail: String },
    /// Deleting a file failed.
    RemoveFilePermanentlyFailed { path: String, detail: String },
    /// Moving a directory into the trashbin failed.
    RemoveDirFailed { path: String, detail: String },
    /// Deleting a directory and its contents failed.
    RemoveDirPermanentlyFailed { path: String, detail: String },
    /// Reading from or writing to the console failed.
    Unexpected { detail: String },
}

} // verus!
