//! Filesystem entries and the failures a filesystem implementation reports.

use vstd::prelude::*;

verus! {

/// A single filesystem entry, as a filesystem's `stat` and `list` report it.
///
/// `last_modified_ms` is the modification time in whole milliseconds since the
/// Unix epoch.
#[derive(Debug, Clone, PartialEq, Eq)]
pub struct FsEntry {
    pub name: String,
    pub is_dir: bool,
    pub size: u64,
    pub last_modified_ms: i64,
}

/// Failure modes a filesystem implementation surfaces.
#[derive(Debug, Clone, PartialEq, Eq)]
pub enum FsError {
    NotFound,
    AccessDenied,
    Other(String),
}

impl FsEntry {
    /// A copy of this entry.
    pub fn duplicate(&self) -> (r: FsEntry)
        ensures
            r == *self,
    {
        FsEntry {
            name: self.name.clone(),
            is_dir: self.is_dir,
            size: self.size,
            last_modified_ms: self.last_modified_ms,
        }
    }
}

impl FsError {
    /// A copy of this error.
    pub fn duplicate(&self) -> (r: FsError)
        ensures
            r == *self,
    {
        match self {
            FsError::NotFound => FsError::NotFound,
            FsError::AccessDenied => FsError::AccessDenied,
            FsError::Other(message) => FsError::Other(message.clone()),
        }
    }
}

/// The failure a filesystem exception stands for, by the exception's name:
/// `NotFoundError` is [`FsError::NotFound`], `NotAllowedError` and
/// `NoModificationAllowedError` are [`FsError::AccessDenied`], and anything
/// else (a missing name included) is [`FsError::Other`] with `message`.
pub open spec fn error_for_exception(name: Option<Seq<char>>, message: String) -> FsError {
    match name {
        Some(n) => if n == "NotFoundError"@ {
            FsError::NotFound
        } else if n == "NotAllowedError"@ || n == "NoModificationAllowedError"@ {
            FsError::AccessDenied
        } else {
            FsError::Other(message)
        },
        None => FsError::Other(message),
    }
}

/// Whether two strings hold the same characters.
fn same_text(a: &String, b: &str) -> (r: bool)
    ensures
        r == (a@ == b@),
{
    let b = b.to_owned();
    *a == b
}

/// Maps a filesystem exception, by its name, to the failure it stands for.
pub fn fs_error_for_exception(name: Option<String>, message: String) -> (e: FsError)
    ensures
        e == error_for_exception(
            match name {
                Some(n) => Some(n@),
                None => None,
            },
            message,
        ),
{
    match name {
        Some(n) => {
            if same_text(&n, "NotFoundError") {
                FsError::NotFound
            } else if same_text(&n, "NotAllowedError") || same_text(&n, "NoModificationAllowedError") {
                FsError::AccessDenied
            } else {
                FsError::Other(message)
            }
        },
        None => FsError::Other(message),
    }
}

/// Whether an exception name is `TypeMismatchError`: what a file lookup
/// throws when the name exists but is a directory.
pub fn is_type_mismatch(name: Option<String>) -> (b: bool)
    ensures
        b == (match name {
            Some(n) => n@ == "TypeMismatchError"@,
            None => false,
        }),
{
    match name {
        Some(n) => same_text(&n, "TypeMismatchError"),
        None => false,
    }
}

} // verus!
