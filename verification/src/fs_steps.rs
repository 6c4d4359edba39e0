//! The order in which a browser-filesystem rename and file open make their
//! calls, and what each call's outcome leads to. The browser file API has no
//! rename primitive and commits writes only when a writable stream closes,
//! so both operations are sequences of calls; these step functions decide
//! the next call, and the caller makes it and reports how it ended.

use vstd::prelude::*;

use crate::entry::FsError;

verus! {

/// How one browser-filesystem call ended.
#[derive(Debug, Clone, PartialEq, Eq)]
pub enum CallOutcome {
    Succeeded,
    /// The call failed with `error`; `type_mismatch` tells whether the
    /// failure was a `TypeMismatchError` (a file lookup on a directory name).
    Failed { error: FsError, type_mismatch: bool },
}

/// Where a rename stands: the next call to make, or its result.
#[derive(Debug, Clone, PartialEq, Eq)]
pub enum RenameStep {
    /// Resolve the source's parent directory and look the source up as a file.
    GetSource,
    /// Read the source's bytes, create the destination file (resolving its
    /// parent) and open a writable stream on it that starts empty.
    OpenDestination,
    /// Write the source's bytes into the destination's stream.
    WriteCopy,
    /// Abort the destination's stream, then fail with the error.
    AbortCopy { error: FsError },
    /// Close the destination's stream, which commits the copy.
    CommitCopy,
    /// Remove the source.
    RemoveSource,
    /// The source is now at the destination.
    Renamed,
    Failed { error: FsError },
}

/// The rename step that follows `step` when its call ended with `outcome`.
pub open spec fn rename_transition(step: RenameStep, outcome: CallOutcome) -> RenameStep {
    match step {
        RenameStep::GetSource => match outcome {
            CallOutcome::Succeeded => RenameStep::OpenDestination,
            // The source is a directory: there is no directory rename.
            CallOutcome::Failed { error, type_mismatch } => RenameStep::Failed {
                error: if type_mismatch {
                    FsError::AccessDenied
                } else {
                    error
                },
            },
        },
        RenameStep::OpenDestination => match outcome {
            CallOutcome::Succeeded => RenameStep::WriteCopy,
            CallOutcome::Failed { error, .. } => RenameStep::Failed { error },
        },
        RenameStep::WriteCopy => match outcome {
            CallOutcome::Succeeded => RenameStep::CommitCopy,
            CallOutcome::Failed { error, .. } => RenameStep::AbortCopy { error },
        },
        RenameStep::AbortCopy { error } => RenameStep::Failed { error },
        RenameStep::CommitCopy => match outcome {
            CallOutcome::Succeeded => RenameStep::RemoveSource,
            CallOutcome::Failed { error, .. } => RenameStep::Failed { error },
        },
        RenameStep::RemoveSource => match outcome {
            CallOutcome::Succeeded => RenameStep::Renamed,
            CallOutcome::Failed { error, .. } => RenameStep::Failed { error },
        },
        RenameStep::Renamed => RenameStep::Renamed,
        RenameStep::Failed { error } => RenameStep::Failed { error },
    }
}

/// Decides the rename step that follows `step` when its call ended with
/// `outcome`. The source is removed only once its copy is committed, and a
/// copy whose write failed is aborted before the rename fails, so a failure
/// part way through never loses the source.
pub fn rename_step(step: RenameStep, outcome: CallOutcome) -> (r: RenameStep)
    ensures
        r == rename_transition(step, outcome),
        r is RemoveSource ==> step is CommitCopy && outcome is Succeeded,
        r matches RenameStep::Renamed ==> step is RemoveSource || step
            == r,
        (step is WriteCopy && outcome is Failed) ==> r is AbortCopy,
        (outcome is Failed && !(step is Renamed)) ==> !(r is Renamed),
        outcome matches CallOutcome::Failed { error, .. } ==> ((step is OpenDestination
            || step is CommitCopy || step is RemoveSource) ==> r == RenameStep::Failed { error }),
{
    match step {
        RenameStep::GetSource => match outcome {
            CallOutcome::Succeeded => RenameStep::OpenDestination,
            CallOutcome::Failed { error, type_mismatch } => RenameStep::Failed {
                error: if type_mismatch {
                    FsError::AccessDenied
                } else {
                    error
                },
            },
        },
        RenameStep::OpenDestination => match outcome {
            CallOutcome::Succeeded => RenameStep::WriteCopy,
            CallOutcome::Failed { error, .. } => RenameStep::Failed { error },
        },
        RenameStep::WriteCopy => match outcome {
            CallOutcome::Succeeded => RenameStep::CommitCopy,
            CallOutcome::Failed { error, .. } => RenameStep::AbortCopy { error },
        },
        RenameStep::AbortCopy { error } => RenameStep::Failed { error },
        RenameStep::CommitCopy => match outcome {
            CallOutcome::Succeeded => RenameStep::RemoveSource,
            CallOutcome::Failed { error, .. } => RenameStep::Failed { error },
        },
        RenameStep::RemoveSource => match outcome {
            CallOutcome::Succeeded => RenameStep::Renamed,
            CallOutcome::Failed { error, .. } => RenameStep::Failed { error },
        },
        RenameStep::Renamed => RenameStep::Renamed,
        RenameStep::Failed { error } => RenameStep::Failed { error },
    }
}

/// Where a file open stands: the next call to make, or its end.
#[derive(Debug, Clone, PartialEq, Eq)]
pub enum OpenStep {
    /// Resolve the parent directory and get the file's handle (creating the
    /// file when asked to).
    GetFile,
    /// Open a writable stream that keeps the file's content: writes land at
    /// arbitrary offsets.
    OpenWritable,
    /// Truncate the stream's content to nothing.
    Truncate,
    /// Abort the stream, then fail with the error.
    AbortWritable { error: FsError },
    /// The file is open: register it under a new handle.
    Register,
    Failed { error: FsError },
}

/// The open step that follows `step` when its call ended with `outcome`,
/// for an open with the given `write` and `truncate` flags.
pub open spec fn open_transition(step: OpenStep, outcome: CallOutcome, write: bool, truncate: bool) -> OpenStep {
    match step {
        OpenStep::GetFile => match outcome {
            CallOutcome::Succeeded => if write {
                OpenStep::OpenWritable
            } else {
                OpenStep::Register
            },
            CallOutcome::Failed { error, .. } => OpenStep::Failed { error },
        },
        OpenStep::OpenWritable => match outcome {
            CallOutcome::Succeeded => if truncate {
                OpenStep::Truncate
            } else {
                OpenStep::Register
            },
            CallOutcome::Failed { error, .. } => OpenStep::Failed { error },
        },
        OpenStep::Truncate => match outcome {
            CallOutcome::Succeeded => OpenStep::Register,
            CallOutcome::Failed { error, .. } => OpenStep::AbortWritable { error },
        },
        OpenStep::AbortWritable { error } => OpenStep::Failed { error },
        OpenStep::Register => OpenStep::Register,
        OpenStep::Failed { error } => OpenStep::Failed { error },
    }
}

/// Decides the open step that follows `step` when its call ended with
/// `outcome`. A stream opened for the file is either registered with it or
/// aborted before the open fails, never left behind.
pub fn open_step(step: OpenStep, outcome: CallOutcome, write: bool, truncate: bool) -> (r: OpenStep)
    ensures
        r == open_transition(step, outcome, write, truncate),
        (step is Truncate && outcome is Failed) ==> r is AbortWritable,
        (r is OpenWritable) ==> write,
        (r is Truncate) ==> truncate,
        (outcome is Failed && !(step is Register)) ==> !(r is Register),
{
    match step {
        OpenStep::GetFile => match outcome {
            CallOutcome::Succeeded => if write {
                OpenStep::OpenWritable
            } else {
                OpenStep::Register
            },
            CallOutcome::Failed { error, .. } => OpenStep::Failed { error },
        },
        OpenStep::OpenWritable => match outcome {
            CallOutcome::Succeeded => if truncate {
                OpenStep::Truncate
            } else {
                OpenStep::Register
            },
            CallOutcome::Failed { error, .. } => OpenStep::Failed { error },
        },
        OpenStep::Truncate => match outcome {
            CallOutcome::Succeeded => OpenStep::Register,
            CallOutcome::Failed { error, .. } => OpenStep::AbortWritable { error },
        },
        OpenStep::AbortWritable { error } => OpenStep::Failed { error },
        OpenStep::Register => OpenStep::Register,
        OpenStep::Failed { error } => OpenStep::Failed { error },
    }
}

/// A rename whose call failed is never reported done, and it fails with
/// that call's error: from the steps after the source was found, the
/// rename fails at once with the error, except that a failed copy write first
/// aborts the copy (still carrying the error). A failed lookup of the source
/// fails with it too, or with `AccessDenied` when the source is a directory.
pub proof fn lemma_failed_call_never_renames(step: RenameStep, error: FsError, type_mismatch: bool)
    requires
        !(step is Renamed),
    ensures
        ({
            let r = rename_transition(step, CallOutcome::Failed { error, type_mismatch });
            &&& !(r is Renamed)
            &&& (step is OpenDestination || step is CommitCopy || step is RemoveSource) ==> r
                == RenameStep::Failed { error }
            &&& step is WriteCopy ==> r == RenameStep::AbortCopy { error }
            &&& step is GetSource ==> r == RenameStep::Failed {
                error: if type_mismatch {
                    FsError::AccessDenied
                } else {
                    error
                },
            }
        }),
{
}

/// Only a committed copy leads to removing the source, and only removing
/// the source leads to a done rename: a rename reaches `Renamed` only through
/// a successful removal, which only follows a successful commit.
pub proof fn lemma_source_removed_only_after_commit(step: RenameStep, outcome: CallOutcome)
    ensures
        rename_transition(step, outcome) is RemoveSource ==> (step is CommitCopy && outcome
            is Succeeded),
        (rename_transition(step, outcome) is Renamed && !(step is Renamed)) ==> (step
            is RemoveSource && outcome is Succeeded),
{
}

/// A file open whose call failed is never registered: it fails with that
/// call's error, after aborting the stream when the truncation failed.
pub proof fn lemma_failed_call_never_registers(
    step: OpenStep,
    error: FsError,
    type_mismatch: bool,
    write: bool,
    truncate: bool,
)
    requires
        !(step is Register),
    ensures
        ({
            let r = open_transition(step, CallOutcome::Failed { error, type_mismatch }, write, truncate);
            &&& !(r is Register)
            &&& (step is GetFile || step is OpenWritable) ==> r == OpenStep::Failed { error }
            &&& step is Truncate ==> r == OpenStep::AbortWritable { error }
        }),
{
}

} // verus!
