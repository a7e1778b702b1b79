//! What one target turns into: the policy check, the archival destination,
//! whether to ask first, and how a failed operation is reported.
use vstd::prelude::*;
use crate::error::XiloError;
use crate::naming::{archival_name, archival_name_of};
use crate::paths::{join, joined};

verus! {

/// The flags that a run applies to each of its targets.
#[derive(Clone, Copy, Debug, PartialEq, Eq, Structural)]
pub struct Flags {
    /// Allow directories to be moved into the trashbin.
    pub recursive: bool,
    /// Move into the trashbin without asking.
    pub force: bool,
    /// Delete for good instead of moving into the trashbin.
    pub permanent: bool,
}

/// The one operation that removes a target.
#[derive(Clone, Debug, PartialEq, Eq)]
pub enum Removal {
    /// Rename `from` to `to`, inside the trashbin.
    Trash { from: String, to: String, is_dir: bool },
    /// Delete `path`, with its whole contents for a directory.
    Delete { path: String, is_dir: bool },
}

/// A confirmation to put to the user.
#[derive(Clone, Debug, PartialEq, Eq)]
pub enum Question {
    /// Empty the whole trashbin?
    EmptyTrashbin { trashbin: String },
    /// Move this target into the trashbin?
    Remove { path: String },
    /// Delete this target for good?
    RemovePermanently { path: String },
}

/// Whether `r` is what `plan_removal` owes for these inputs.
pub open spec fn is_planned(
    r: Result<Removal, XiloError>,
    path: Seq<char>,
    is_dir: bool,
    flags: Flags,
    trashbin: Seq<char>,
    timestamp: Seq<char>,
) -> bool {
    if is_dir && !flags.recursive {
        r matches Err(XiloError::RemoveDirWithoutRecursiveFlag { path: p }) && p@ == path
    } else if flags.permanent {
        r matches Ok(Removal::Delete { path: p, is_dir: d }) && p@ == path && d == is_dir
    } else {
        match archival_name_of(path, timestamp) {
            None => r matches Err(XiloError::NoFileName { path: p }) && p@ == path,
            Some(a) => r matches Ok(Removal::Trash { from, to, is_dir: d }) && from@ == path
                && to@ == joined(trashbin, a) && d == is_dir,
        }
    }
}

/// Decides how to remove the target at `path`, seen as a directory or not.
/// A directory without the recursive flag is refused whatever the other flags;
/// permanent mode deletes in place; otherwise the target is renamed into
/// `trashbin` under its archival name for `timestamp`.
pub fn plan_removal(path: &str, is_dir: bool, flags: Flags, trashbin: &str, timestamp: &str) -> (r:
    Result<Removal, XiloError>)
    ensures
        is_planned(r, path@, is_dir, flags, trashbin@, timestamp@),
{
    if is_dir && !flags.recursive {
        return Err(XiloError::RemoveDirWithoutRecursiveFlag { path: String::from_str(path) });
    }
    if flags.permanent {
        return Ok(Removal::Delete { path: String::from_str(path), is_dir });
    }
    match archival_name(path, timestamp) {
        None => Err(XiloError::NoFileName { path: String::from_str(path) }),
        Some(name) => Ok(
            Removal::Trash {
                from: String::from_str(path),
                to: join(trashbin, name.as_str()),
                is_dir,
            },
        ),
    }
}

/// Whether a removal is put to the user before it is done: always for a
/// deletion, for a move only without the force flag.
pub open spec fn needs_confirmation(r: Removal, flags: Flags) -> bool {
    match r {
        Removal::Delete { .. } => true,
        Removal::Trash { .. } => !flags.force,
    }
}

/// The question that asks for `r`.
pub open spec fn asks_for(q: Question, r: Removal) -> bool {
    match r {
        Removal::Delete { path, .. } => q matches Question::RemovePermanently { path: p } && p@
            == path@,
        Removal::Trash { from, .. } => q matches Question::Remove { path: p } && p@ == from@,
    }
}

/// Whether `e` reports the failure of `r` with `detail`.
pub open spec fn reports_failure(e: XiloError, r: Removal, detail: Seq<char>) -> bool {
    match r {
        Removal::Trash { from, is_dir, .. } => if is_dir {
            e matches XiloError::RemoveDirFailed { path, detail: d } && path@ == from@ && d@
                == detail
        } else {
            e matches XiloError::RemoveFileFailed { path, detail: d } && path@ == from@ && d@
                == detail
        },
        Removal::Delete { path: from, is_dir } => if is_dir {
            e matches XiloError::RemoveDirPermanentlyFailed { path, detail: d } && path@ == from@
                && d@ == detail
        } else {
            e matches XiloError::RemoveFilePermanentlyFailed { path, detail: d } && path@
                == from@ && d@ == detail
        },
    }
}

impl Removal {
    /// The confirmation that asks for this removal.
    pub fn question(&self) -> (q: Question)
        ensures
            asks_for(q, *self),
    {
        match self {
            Removal::Delete { path, .. } => Question::RemovePermanently { path: path.clone() },
            Removal::Trash { from, .. } => Question::Remove { path: from.clone() },
        }
    }

    /// The error that reports this removal's failure, with the platform's `detail`.
    pub fn failure(&self, detail: String) -> (e: XiloError)
        ensures
            reports_failure(e, *self, detail@),
    {
        match self {
            Removal::Trash { from, is_dir, .. } => if *is_dir {
                XiloError::RemoveDirFailed { path: from.clone(), detail }
            } else {
                XiloError::RemoveFileFailed { path: from.clone(), detail }
            },
            Removal::Delete { path, is_dir } => if *is_dir {
                XiloError::RemoveDirPermanentlyFailed { path: path.clone(), detail }
            } else {
                XiloError::RemoveFilePermanentlyFailed { path: path.clone(), detail }
            },
        }
    }
}

} // verus!
