//! The decision core of the drive-redirection backend: answers each server
//! drive IRP from the open-`file_id` table where that alone decides it, and
//! otherwise names the filesystem operation to perform and how to continue
//! once its result is back.
//!
//! A filesystem operation is asynchronous, so an IRP that needs one yields a
//! [`Task`] plus the [`FsOp`] to run; the caller runs the operation and hands
//! its [`FsResult`] to [`WasmDriveBackend::resume`], which either names the
//! next operation or produces the completion [`Reply`]. Every task carries the
//! generation it was started in; [`WasmDriveBackend::reset`] starts a new
//! generation, and a task of an older one completes with no reply and no
//! effect on the table.

use vstd::prelude::*;

use crate::entry::{FsEntry, FsError};
use crate::info::{
    build_dir_info, build_query_info, build_volume_info, dir_info, query_info, volume_info_for,
    DirInfo, QueryInfo, VolumeInfo,
};
use crate::path::{dir_search_pattern, path_is_valid, path_ok, search_pattern};
use crate::protocol::{
    is_write_intent, nt_status_for, status_for, write_intent, ACCESS_DENIED, FILE_CREATE,
    FILE_CREATED, FILE_DIRECTORY_FILE, FILE_IS_A_DIRECTORY, FILE_NON_DIRECTORY_FILE, FILE_OPEN,
    FILE_OPENED, FILE_OVERWRITE, FILE_OVERWRITE_IF, FILE_SUPERSEDE, INFORMATION_NONE,
    INVALID_HANDLE, INVALID_PARAMETER, NOT_SUPPORTED, NO_MORE_FILES, NO_SUCH_FILE, SUCCESS, UNSUCCESSFUL,
};
use crate::state::{fresh_entry, handles_of, DriveState, DriveStateView, OpenEntry};
use crate::wildcard::{dos_match, dos_wildcard_match};

verus! {

/// The most bytes a single read is answered with, whatever length the server
/// asked for (1 MiB). Only a ceiling on absurd requests: the redirector
/// advances by the length it requested, so anything short of a genuine
/// end-of-file read would leave a hole in the copied file.
pub const MAX_DRIVE_READ_BYTES: u32 = 1_048_576;

/// Current size of the wasm linear memory, in bytes: a diagnostic logged on
/// the read path to show whether the heap grows without bound. This library
/// is built for the host, which has no wasm linear memory, so the size it
/// reports is 0.
pub fn wasm_heap_bytes() -> (bytes: u32)
    ensures
        bytes == 0,
{
    0
}

/// What a `Create` IRP carries that the backend decides on.
#[derive(Debug, Clone, PartialEq, Eq)]
pub struct CreateRequest {
    pub desired_access: u32,
    pub create_disposition: u32,
    pub create_options: u32,
    pub path: String,
}

/// The information class of a `SetInformation` IRP, as far as it matters here.
#[derive(Debug, Clone, PartialEq, Eq)]
pub enum SetInformation {
    Rename { file_name: String },
    Disposition { delete_pending: u8 },
    /// End-of-file information: the file's new length.
    EndOfFile { size: i64 },
    /// Allocation information: the file's new allocated length.
    Allocation { size: i64 },
    /// Basic information (times and attributes): no filesystem primitive.
    Other,
}

/// A server drive IRP, reduced to what the backend decides on.
#[derive(Debug, Clone, PartialEq, Eq)]
pub enum DriveRequest {
    Create(CreateRequest),
    QueryInformation { file_id: u32, class_lvl: u32 },
    Close { file_id: u32 },
    QueryDirectory { file_id: u32, class_lvl: u32, initial_query: u8, path: String },
    NotifyChangeDirectory,
    QueryVolumeInformation { fs_info_class_lvl: u32 },
    DeviceControl,
    Read { file_id: u32, length: u32, offset: u64 },
    Write { file_id: u32, offset: u64, data: Vec<u8> },
    FlushBuffers,
    SetInformation { file_id: u32, info: SetInformation },
    LockControl,
    QuerySecurity,
    SetSecurity,
}

/// The completion an IRP is answered with.
#[derive(Debug, Clone, PartialEq, Eq)]
#[allow(inconsistent_fields)]
pub enum Reply {
    Create { status: u32, file_id: u32, information: u8 },
    QueryInformation { status: u32, buffer: Option<QueryInfo> },
    Close { status: u32 },
    QueryDirectory { status: u32, buffer: Option<DirInfo> },
    Read { status: u32, data: Vec<u8> },
    Write { status: u32, length: u32 },
    SetInformation { status: u32 },
    QueryVolumeInformation { status: u32, buffer: Option<VolumeInfo> },
    DeviceControl { status: u32 },
    FlushBuffers { status: u32 },
    LockControl { status: u32 },
    QuerySecurity { status: u32 },
    SetSecurity { status: u32 },
}

/// A filesystem operation to run on the caller's behalf.
#[derive(Debug, Clone, PartialEq, Eq)]
pub enum FsOp {
    Stat { path: String },
    List { path: String },
    OpenFile { path: String, write: bool, create: bool, truncate: bool },
    Read { handle: u32, offset: u64, len: u32 },
    Write { handle: u32, offset: u64, data: Vec<u8> },
    Close { handle: u32 },
    Rename { from: String, to: String },
    Delete { path: String },
    Mkdir { path: String },
    /// Truncate or zero-extend the write-opened file behind `handle` to
    /// exactly `size` bytes.
    SetLen { handle: u32, size: u64 },
}

/// The result of running an [`FsOp`].
#[derive(Debug, PartialEq, Eq)]
pub enum FsResult {
    Entry(Result<FsEntry, FsError>),
    Listing(Result<Vec<FsEntry>, FsError>),
    Handle(Result<u32, FsError>),
    Data(Result<Vec<u8>, FsError>),
    Written(Result<u32, FsError>),
    Done(Result<(), FsError>),
}

/// How a `Create` IRP is carried out, decided from its flags.
#[derive(Debug, Clone, Copy, PartialEq, Eq)]
pub struct CreatePlan {
    /// `FILE_DIRECTORY_FILE`: the server committed to a directory.
    pub is_directory: bool,
    /// `FILE_NON_DIRECTORY_FILE`: the server committed to a non-directory.
    pub must_not_be_directory: bool,
    pub write: bool,
    /// Any disposition but `FILE_OPEN` may create.
    pub creates_new: bool,
    /// `FILE_SUPERSEDE`, `FILE_OVERWRITE` and `FILE_OVERWRITE_IF` truncate.
    pub truncates: bool,
    /// `Information` reported on success.
    pub information: u8,
}

/// Where an unfinished IRP stands, with what it needs to continue.
#[derive(Debug, Clone, PartialEq, Eq)]
pub enum Stage {
    CreateStat { path: String, plan: CreatePlan },
    CreateMkdir { path: String, plan: CreatePlan },
    CreateOpen { path: String, plan: CreatePlan },
    QueryInformation { class_lvl: u32 },
    Close,
    QueryDirectory { file_id: u32, class_lvl: u32, pattern: Option<String> },
    Read,
    Write,
    Rename { file_id: u32, to: String },
    Delete,
    SetLength,
    /// Closing the filesystem handles a reset left behind, one at a time.
    ResetClose { handles: Vec<u32>, next: usize },
}

/// An unfinished IRP and the generation it was started in.
#[derive(Debug, Clone, PartialEq, Eq)]
pub struct Task {
    pub generation: u64,
    pub stage: Stage,
}

/// What [`WasmDriveBackend::resume`] leads to: another operation, or the end,
/// with the completion to send if there is one.
#[derive(Debug, Clone, PartialEq, Eq)]
pub enum Step {
    Next(Task, FsOp),
    Done(Option<Reply>),
}

/// What an incoming IRP leads to.
#[derive(Debug, Clone, PartialEq, Eq)]
pub enum Dispatch {
    /// Answered at once.
    Reply(Reply),
    /// Answered once the operation (and whatever follows it) completes.
    Pending(Task, FsOp),
    /// Left pending indefinitely (directory change notifications).
    NoReply,
}

/// A `Create` failure that isn't a plain filesystem error: the server asked
/// for a non-directory and the target is one.
#[derive(Debug, Clone, PartialEq, Eq)]
pub enum CreateOutcomeError {
    Fs(FsError),
    IsADirectory,
}

/// What a `Create` does after its `stat`.
#[derive(Debug, Clone, PartialEq, Eq)]
pub enum CreateStep {
    /// The entry is open (a directory carries no filesystem handle).
    Opened { fs_handle: Option<u32>, is_dir: bool },
    Failed(CreateOutcomeError),
    /// Open (or create) the file.
    OpenFile,
    /// Create the missing directory.
    Mkdir,
}

/// The status a failed `Create` reports.
pub open spec fn create_status(err: CreateOutcomeError) -> u32 {
    match err {
        CreateOutcomeError::Fs(e) => status_for(e),
        CreateOutcomeError::IsADirectory => FILE_IS_A_DIRECTORY,
    }
}

/// Maps a `Create` failure to the NT status reported to the server.
pub fn create_status_for(err: &CreateOutcomeError) -> (status: u32)
    ensures
        status == create_status(*err),
{
    match err {
        CreateOutcomeError::Fs(e) => nt_status_for(e),
        CreateOutcomeError::IsADirectory => FILE_IS_A_DIRECTORY,
    }
}

/// The error a failed `Create` carries, given what `stat` answered: the
/// server asked for a non-directory and found a directory, or a directory and
/// found a file, or `stat` failed with the error it carried.
pub open spec fn create_failure_is(stat: Result<FsEntry, FsError>, e: CreateOutcomeError) -> bool {
    match e {
        CreateOutcomeError::IsADirectory => stat matches Ok(en) && en.is_dir,
        CreateOutcomeError::Fs(fe) => match stat {
            Ok(en) => !en.is_dir && (fe matches FsError::Other(m) && m@ == not_a_directory_message()),
            Err(se) => fe == se,
        },
    }
}

/// The message of the failure when a directory was asked for and a file found.
pub open spec fn not_a_directory_message() -> Seq<char> {
    "path exists and is not a directory"@
}

/// The plan a `Create` IRP's flags call for.
pub open spec fn create_plan(c: CreateRequest) -> CreatePlan {
    CreatePlan {
        is_directory: (c.create_options & FILE_DIRECTORY_FILE) != 0,
        must_not_be_directory: (c.create_options & FILE_NON_DIRECTORY_FILE) != 0,
        write: write_intent(c.desired_access, c.create_disposition),
        creates_new: c.create_disposition != FILE_OPEN,
        truncates: c.create_disposition == FILE_SUPERSEDE || c.create_disposition == FILE_OVERWRITE
            || c.create_disposition == FILE_OVERWRITE_IF,
        information: if c.create_disposition == FILE_CREATE {
            FILE_CREATED
        } else {
            FILE_OPENED
        },
    }
}

/// What `stat`'s answer leads a `Create` to, as a status on failure.
#[derive(Debug, Clone, PartialEq, Eq)]
pub enum CreateDecision {
    Opened { fs_handle: Option<u32>, is_dir: bool },
    Failed { status: u32 },
    OpenFile,
    Mkdir,
}

/// The decision of [`CreateStep`] with a failure reduced to its status.
pub open spec fn decision_of(s: CreateStep) -> CreateDecision {
    match s {
        CreateStep::Opened { fs_handle, is_dir } => CreateDecision::Opened { fs_handle, is_dir },
        CreateStep::Failed(e) => CreateDecision::Failed { status: create_status(e) },
        CreateStep::OpenFile => CreateDecision::OpenFile,
        CreateStep::Mkdir => CreateDecision::Mkdir,
    }
}

/// What a `Create` does after `stat` answered `stat`:
/// * committed to a directory: an existing directory opens, an existing file
///   fails, a missing one is created if the disposition may create, and any
///   other failure is reported;
/// * otherwise a directory opens as one (unless the server committed to a
///   non-directory), and a file or a missing path goes to `open_file`, which
///   creates or reports `NotFound` as the disposition says.
pub open spec fn create_decision(plan: CreatePlan, stat: Result<FsEntry, FsError>) -> CreateDecision {
    if plan.is_directory {
        match stat {
            Ok(e) => if e.is_dir {
                CreateDecision::Opened { fs_handle: None, is_dir: true }
            } else {
                CreateDecision::Failed { status: UNSUCCESSFUL }
            },
            Err(FsError::NotFound) => if plan.creates_new {
                CreateDecision::Mkdir
            } else {
                CreateDecision::Failed { status: NO_SUCH_FILE }
            },
            Err(e) => CreateDecision::Failed { status: status_for(e) },
        }
    } else {
        match stat {
            Ok(e) => if !e.is_dir {
                CreateDecision::OpenFile
            } else if plan.must_not_be_directory {
                CreateDecision::Failed { status: FILE_IS_A_DIRECTORY }
            } else {
                CreateDecision::Opened { fs_handle: None, is_dir: true }
            },
            Err(FsError::NotFound) => CreateDecision::OpenFile,
            Err(e) => CreateDecision::Failed { status: status_for(e) },
        }
    }
}

/// The entries that survive a `QueryDirectory` search pattern (all of them
/// when there is none).
pub open spec fn filtered(listing: Seq<FsEntry>, pattern: Option<Seq<char>>) -> Seq<FsEntry> {
    match pattern {
        None => listing,
        Some(p) => listing.filter(|e: FsEntry| dos_match(p, e.name@)),
    }
}

/// The view of an optional string.
pub open spec fn opt_view(s: Option<String>) -> Option<Seq<char>> {
    match s {
        Some(v) => Some(v@),
        None => None,
    }
}

impl FsOp {
    /// Whether the operation can change what the share holds.
    pub open spec fn mutates(self) -> bool {
        match self {
            FsOp::OpenFile { write, create, truncate, .. } => write || create || truncate,
            FsOp::Write { .. } | FsOp::Rename { .. } | FsOp::Delete { .. } | FsOp::Mkdir { .. }
            | FsOp::SetLen { .. } => true,
            _ => false,
        }
    }

    /// Whether every path the operation names clears normalization.
    pub open spec fn paths_ok(self) -> bool {
        match self {
            FsOp::Stat { path } | FsOp::List { path } | FsOp::OpenFile { path, .. }
            | FsOp::Delete { path } | FsOp::Mkdir { path } => path_ok(path@),
            FsOp::Rename { from, to } => path_ok(from@) && path_ok(to@),
            _ => true,
        }
    }

    /// Whether `r` is the kind of result this operation produces.
    pub open spec fn answers(self, r: FsResult) -> bool {
        match self {
            FsOp::Stat { .. } => r is Entry,
            FsOp::List { .. } => r is Listing,
            FsOp::OpenFile { .. } => r is Handle,
            FsOp::Read { .. } => r is Data,
            FsOp::Write { .. } => r is Written,
            FsOp::Close { .. } | FsOp::Rename { .. } | FsOp::Delete { .. } | FsOp::Mkdir { .. }
            | FsOp::SetLen { .. } => r is Done,
        }
    }
}

impl Stage {
    /// Whether `r` is the kind of result this stage waits for.
    pub open spec fn accepts(self, r: FsResult) -> bool {
        match self {
            Stage::CreateStat { .. } | Stage::QueryInformation { .. } => r is Entry,
            Stage::CreateOpen { .. } => r is Handle,
            Stage::QueryDirectory { .. } => r is Listing,
            Stage::Read => r is Data,
            Stage::Write => r is Written,
            Stage::CreateMkdir { .. } | Stage::Close | Stage::Rename { .. } | Stage::Delete
            | Stage::SetLength | Stage::ResetClose { .. } => r is Done,
        }
    }

    /// Whether the stage can only ever lead to operations that leave the
    /// share unchanged.
    pub open spec fn read_only_safe(self) -> bool {
        match self {
            Stage::CreateStat { plan, .. } | Stage::CreateMkdir { plan, .. } | Stage::CreateOpen {
                plan,
                ..
            } => !plan.write && !plan.creates_new && !plan.truncates,
            Stage::Write | Stage::Rename { .. } | Stage::Delete | Stage::SetLength => false,
            _ => true,
        }
    }

    /// The stage's own well-formedness: every path it holds clears
    /// normalization, and a reset's close cursor is within its handles.
    pub open spec fn wf(self) -> bool {
        match self {
            Stage::CreateStat { path, .. } | Stage::CreateMkdir { path, .. } | Stage::CreateOpen {
                path,
                ..
            } => path_ok(path@),
            Stage::Rename { to, .. } => path_ok(to@),
            Stage::ResetClose { handles, next } => next < handles@.len(),
            _ => true,
        }
    }
}

impl Task {
    pub open spec fn wf(self) -> bool {
        self.stage.wf()
    }
}

/// The result of an operation always suits the stage that asked for it.
pub open spec fn op_suits(t: Task, op: FsOp) -> bool {
    forall|r: FsResult| op.answers(r) ==> t.stage.accepts(r)
}

/// The well-formedness every task/operation pair the backend hands out has.
pub open spec fn pending_ok(t: Task, op: FsOp) -> bool {
    &&& t.wf()
    &&& op.paths_ok()
    &&& op_suits(t, op)
}

} // verus!

verus! {

/// The plan a `Create` IRP's flags call for.
pub fn create_plan_for(c: &CreateRequest) -> (plan: CreatePlan)
    ensures
        plan == create_plan(*c),
        plan.truncates <==> (c.create_disposition == FILE_SUPERSEDE || c.create_disposition
            == FILE_OVERWRITE || c.create_disposition == FILE_OVERWRITE_IF),
        plan.creates_new <==> c.create_disposition != FILE_OPEN,
        plan.information == (if c.create_disposition == FILE_CREATE {
            FILE_CREATED
        } else {
            FILE_OPENED
        }),
{
    CreatePlan {
        is_directory: (c.create_options & FILE_DIRECTORY_FILE) != 0,
        must_not_be_directory: (c.create_options & FILE_NON_DIRECTORY_FILE) != 0,
        write: is_write_intent(c.desired_access, c.create_disposition),
        creates_new: c.create_disposition != FILE_OPEN,
        truncates: c.create_disposition == FILE_SUPERSEDE || c.create_disposition == FILE_OVERWRITE
            || c.create_disposition == FILE_OVERWRITE_IF,
        information: if c.create_disposition == FILE_CREATE {
            FILE_CREATED
        } else {
            FILE_OPENED
        },
    }
}

/// A `Create` committed to a directory, after `stat`: an existing directory
/// opens (with no filesystem handle), an existing file is an error, and a
/// missing path is created when the disposition may create.
pub fn open_or_create_directory(creates_new: bool, stat: Result<FsEntry, FsError>) -> (s: CreateStep)
    ensures
        decision_of(s) == create_decision(
            CreatePlan {
                is_directory: true,
                must_not_be_directory: false,
                write: false,
                creates_new,
                truncates: false,
                information: 0,
            },
            stat,
        ),
        s matches CreateStep::Failed(e) ==> create_failure_is(stat, e) && !(e is IsADirectory),
{
    match stat {
        Ok(entry) => {
            if entry.is_dir {
                CreateStep::Opened { fs_handle: None, is_dir: true }
            } else {
                let message = "path exists and is not a directory".to_owned();
                proof {
                    reveal_strlit("path exists and is not a directory");
                }
                CreateStep::Failed(CreateOutcomeError::Fs(FsError::Other(message)))
            }
        },
        Err(FsError::NotFound) => {
            if creates_new {
                CreateStep::Mkdir
            } else {
                CreateStep::Failed(CreateOutcomeError::Fs(FsError::NotFound))
            }
        },
        Err(err) => CreateStep::Failed(CreateOutcomeError::Fs(err)),
    }
}

/// Resolves a `Create` into a directory open/create or a file open/create
/// from what `stat` found, whether or not the server said which it wanted:
/// unless it committed to a directory, the real answer decides (the Windows
/// redirector routinely opens a directory with neither type flag set).
pub fn resolve_create_outcome(plan: &CreatePlan, stat: Result<FsEntry, FsError>) -> (s: CreateStep)
    ensures
        decision_of(s) == create_decision(*plan, stat),
        s matches CreateStep::Failed(e) ==> create_failure_is(stat, e) && (e is IsADirectory ==> (
        !plan.is_directory && plan.must_not_be_directory)),
{
    if plan.is_directory {
        return open_or_create_directory(plan.creates_new, stat);
    }
    match stat {
        Ok(entry) => {
            if entry.is_dir {
                if plan.must_not_be_directory {
                    CreateStep::Failed(CreateOutcomeError::IsADirectory)
                } else {
                    CreateStep::Opened { fs_handle: None, is_dir: true }
                }
            } else {
                CreateStep::OpenFile
            }
        },
        Err(FsError::NotFound) => CreateStep::OpenFile,
        Err(err) => CreateStep::Failed(CreateOutcomeError::Fs(err)),
    }
}

/// Keeps the entries whose names match the search pattern (all of them when
/// there is none), in listing order.
pub fn filter_listing(listing: Vec<FsEntry>, pattern: &Option<String>) -> (r: Vec<FsEntry>)
    ensures
        r@ == filtered(listing@, opt_view(*pattern)),
{
    match pattern {
        None => listing,
        Some(p) => {
            let ghost pred = |e: FsEntry| dos_match(p@, e.name@);
            let mut kept: Vec<FsEntry> = Vec::new();
            let mut i: usize = 0;
            while i < listing.len()
                invariant
                    i <= listing@.len(),
                    pred == (|e: FsEntry| dos_match(p@, e.name@)),
                    kept@ == listing@.take(i as int).filter(pred),
                decreases listing@.len() - i,
            {
                let entry = &listing[i];
                let matched = dos_wildcard_match(p.as_str(), entry.name.as_str());
                proof {
                    listing@.take(i as int).lemma_filter_push(listing@[i as int], pred);
                    assert(listing@.take(i + 1) =~= listing@.take(i as int).push(listing@[i as int]));
                }
                if matched {
                    kept.push(entry.duplicate());
                }
                i = i + 1;
            }
            assert(listing@.take(listing@.len() as int) =~= listing@);
            kept
        },
    }
}

} // verus!


verus! {

/// What a `Create` leads to (see [`WasmDriveBackend::dispatch_create`]).
pub open spec fn create_dispatched(v: BackendView, c: CreateRequest, d: Dispatch) -> bool {
    if v.read_only && write_intent(c.desired_access, c.create_disposition) {
        d == Dispatch::Reply(
            Reply::Create { status: ACCESS_DENIED, file_id: 0, information: INFORMATION_NONE },
        )
    } else if !path_ok(c.path@) {
        d == Dispatch::Reply(
            Reply::Create { status: ACCESS_DENIED, file_id: 0, information: INFORMATION_NONE },
        )
    } else {
        d == Dispatch::Pending(
            Task {
                generation: v.generation,
                stage: Stage::CreateStat { path: c.path, plan: create_plan(c) },
            },
            FsOp::Stat { path: c.path },
        )
    }
}

/// What a `QueryInformation` leads to.
pub open spec fn query_information_dispatched(
    v: BackendView,
    file_id: u32,
    class_lvl: u32,
    d: Dispatch,
) -> bool {
    if !v.state.entries.contains_key(file_id) {
        d == Dispatch::Reply(Reply::QueryInformation { status: INVALID_HANDLE, buffer: None })
    } else {
        d == Dispatch::Pending(
            Task { generation: v.generation, stage: Stage::QueryInformation { class_lvl } },
            FsOp::Stat { path: v.state.entries[file_id].path },
        )
    }
}

/// What a `Close` leads to, from `v` to `w`.
pub open spec fn close_dispatched(v: BackendView, w: BackendView, file_id: u32, d: Dispatch) -> bool {
    &&& w.read_only == v.read_only
    &&& w.generation == v.generation
    &&& w.state.next_file_id == v.state.next_file_id
    &&& w.state.entries == v.state.entries.remove(file_id)
    &&& if !v.state.entries.contains_key(file_id) {
        d == Dispatch::Reply(Reply::Close { status: INVALID_HANDLE })
    } else {
        match v.state.entries[file_id].fs_handle {
            None => d == Dispatch::Reply(Reply::Close { status: SUCCESS }),
            Some(h) => d == Dispatch::Pending(
                Task { generation: v.generation, stage: Stage::Close },
                FsOp::Close { handle: h },
            ),
        }
    }
}

/// What a `QueryDirectory` leads to, from `v` to `w`.
pub open spec fn query_directory_dispatched(
    v: BackendView,
    w: BackendView,
    file_id: u32,
    class_lvl: u32,
    initial_query: u8,
    path: Seq<char>,
    d: Dispatch,
) -> bool {
    let m = v.state.entries;
    &&& w.read_only == v.read_only
    &&& w.generation == v.generation
    &&& w.state.next_file_id == v.state.next_file_id
    &&& if initial_query == 0 {
        if m.contains_key(file_id) && m[file_id].dir_listing is Some && m[file_id].dir_cursor
            < m[file_id].dir_listing->0@.len() {
            &&& d == Dispatch::Reply(
                Reply::QueryDirectory {
                    status: SUCCESS,
                    buffer: Some(
                        dir_info(class_lvl, m[file_id].dir_listing->0@[m[file_id].dir_cursor as int]),
                    ),
                },
            )
            &&& w.state.entries == m.insert(
                file_id,
                OpenEntry { dir_cursor: (m[file_id].dir_cursor + 1) as usize, ..m[file_id] },
            )
        } else {
            &&& d == Dispatch::Reply(Reply::QueryDirectory { status: NO_MORE_FILES, buffer: None })
            &&& w.state.entries == m
        }
    } else {
        &&& w.state.entries == m
        &&& if !m.contains_key(file_id) {
            d == Dispatch::Reply(Reply::QueryDirectory { status: INVALID_HANDLE, buffer: None })
        } else {
            d matches Dispatch::Pending(
                Task {
                    generation,
                    stage: Stage::QueryDirectory { file_id: fid, class_lvl: lvl, pattern },
                },
                FsOp::List { path: listed },
            ) && generation == v.generation && fid == file_id && lvl == class_lvl && opt_view(
                pattern,
            ) == search_pattern(path) && listed == m[file_id].path
        }
    }
}

/// The length a read of `length` bytes is clamped to.
pub open spec fn clamped_read_len(length: u32) -> u32 {
    if length < MAX_DRIVE_READ_BYTES {
        length
    } else {
        MAX_DRIVE_READ_BYTES
    }
}

/// What a `Read` leads to.
pub open spec fn read_dispatched(v: BackendView, file_id: u32, length: u32, offset: u64, d: Dispatch) -> bool {
    match v.handle_of(file_id) {
        None => d matches Dispatch::Reply(Reply::Read { status, data }) && status == INVALID_HANDLE
            && data@.len() == 0,
        Some(h) => d == Dispatch::Pending(
            Task { generation: v.generation, stage: Stage::Read },
            FsOp::Read { handle: h, offset, len: clamped_read_len(length) },
        ),
    }
}

/// What a `Write` leads to.
pub open spec fn write_dispatched(v: BackendView, file_id: u32, offset: u64, data: Vec<u8>, d: Dispatch) -> bool {
    if v.read_only {
        d == Dispatch::Reply(Reply::Write { status: ACCESS_DENIED, length: 0 })
    } else {
        match v.handle_of(file_id) {
            None => d == Dispatch::Reply(Reply::Write { status: INVALID_HANDLE, length: 0 }),
            Some(h) => d == Dispatch::Pending(
                Task { generation: v.generation, stage: Stage::Write },
                FsOp::Write { handle: h, offset, data },
            ),
        }
    }
}

/// What a `SetInformation` leads to.
pub open spec fn set_information_dispatched(
    v: BackendView,
    file_id: u32,
    info: SetInformation,
    d: Dispatch,
) -> bool {
    let m = v.state.entries;
    if v.read_only {
        d == Dispatch::Reply(Reply::SetInformation { status: ACCESS_DENIED })
    } else if !m.contains_key(file_id) {
        d == Dispatch::Reply(Reply::SetInformation { status: INVALID_HANDLE })
    } else {
        match info {
            SetInformation::Rename { file_name } => if !path_ok(file_name@) {
                d == Dispatch::Reply(Reply::SetInformation { status: ACCESS_DENIED })
            } else {
                d == Dispatch::Pending(
                    Task { generation: v.generation, stage: Stage::Rename { file_id, to: file_name } },
                    FsOp::Rename { from: m[file_id].path, to: file_name },
                )
            },
            SetInformation::Disposition { delete_pending } => if delete_pending != 0 {
                d == Dispatch::Pending(
                    Task { generation: v.generation, stage: Stage::Delete },
                    FsOp::Delete { path: m[file_id].path },
                )
            } else {
                d == Dispatch::Reply(Reply::SetInformation { status: SUCCESS })
            },
            SetInformation::EndOfFile { size } | SetInformation::Allocation { size } => match m[file_id].fs_handle {
                None => d == Dispatch::Reply(Reply::SetInformation { status: INVALID_HANDLE }),
                Some(h) => if size < 0 {
                    d == Dispatch::Reply(Reply::SetInformation { status: INVALID_PARAMETER })
                } else {
                    d == Dispatch::Pending(
                        Task { generation: v.generation, stage: Stage::SetLength },
                        FsOp::SetLen { handle: h, size: size as u64 },
                    )
                },
            },
            SetInformation::Other => d == Dispatch::Reply(Reply::SetInformation { status: NOT_SUPPORTED }),
        }
    }
}

} // verus!


verus! {

/// The laws every dispatched IRP obeys: a pending operation is well formed
/// (paths clear normalization, results suit the task) and belongs to the
/// current generation, and a read-only backend never starts an operation that
/// could change the share.
pub open spec fn dispatch_laws(v: BackendView, d: Dispatch) -> bool {
    &&& d matches Dispatch::Pending(t, op) ==> pending_ok(t, op) && t.generation == v.generation
    &&& v.read_only ==> (d matches Dispatch::Pending(t, op) ==> t.stage.read_only_safe()
        && !op.mutates())
}

} // verus!

verus! {

/// The decision core of a drive-redirection backend: its open-`file_id`
/// table, whether the share is read-only, and the current generation.
#[derive(Debug)]
pub struct WasmDriveBackend {
    state: DriveState,
    read_only: bool,
    generation: u64,
}

/// The abstract state of a [`WasmDriveBackend`].
pub struct BackendView {
    pub state: DriveStateView,
    pub read_only: bool,
    pub generation: u64,
}

impl View for WasmDriveBackend {
    type V = BackendView;

    closed spec fn view(&self) -> BackendView {
        BackendView { state: self.state@, read_only: self.read_only, generation: self.generation }
    }
}

impl BackendView {
    /// The backend's invariant: the table is well formed and every open
    /// entry's path clears normalization.
    pub open spec fn wf(self) -> bool {
        &&& self.state.wf()
        &&& forall|id: u32| #[trigger]
            self.state.entries.contains_key(id) ==> path_ok(self.state.entries[id].path@)
    }

    /// The filesystem handle behind an open `file_id`, if any.
    pub open spec fn handle_of(self, file_id: u32) -> Option<u32> {
        if self.state.entries.contains_key(file_id) {
            self.state.entries[file_id].fs_handle
        } else {
            None
        }
    }
}

/// The generation after `g`: the next integer, wrapping to 0.
pub open spec fn next_generation(g: u64) -> u64 {
    if g == u64::MAX {
        0
    } else {
        (g + 1) as u64
    }
}

impl WasmDriveBackend {
    /// A backend with an empty table in generation 0.
    pub fn new(read_only: bool) -> (b: Self)
        ensures
            b@.wf(),
            b@.read_only == read_only,
            b@.generation == 0,
            b@.state.entries == Map::<u32, OpenEntry>::empty(),
            b@.state.next_file_id == 1,
    {
        WasmDriveBackend { state: DriveState::new(), read_only, generation: 0 }
    }

    /// The open-`file_id` table.
    pub fn state(&self) -> (s: &DriveState)
        ensures
            s@ == self@.state,
    {
        &self.state
    }

    /// Whether the share is read-only.
    pub fn is_read_only(&self) -> (b: bool)
        ensures
            b == self@.read_only,
    {
        self.read_only
    }

    /// The current generation.
    pub fn generation(&self) -> (g: u64)
        ensures
            g == self@.generation,
    {
        self.generation
    }

    /// `Create`: a read-only share refuses any write intent, a path that
    /// escapes the share is refused, and anything else starts with a `stat`.
    pub fn dispatch_create(&self, create: CreateRequest) -> (d: Dispatch)
        ensures
            create_dispatched(self@, create, d),
            dispatch_laws(self@, d),
    {
        if self.read_only && is_write_intent(create.desired_access, create.create_disposition) {
            return Dispatch::Reply(
                Reply::Create { status: ACCESS_DENIED, file_id: 0, information: INFORMATION_NONE },
            );
        }
        if !path_is_valid(create.path.as_str()) {
            return Dispatch::Reply(
                Reply::Create { status: ACCESS_DENIED, file_id: 0, information: INFORMATION_NONE },
            );
        }
        let plan = create_plan_for(&create);
        let op = FsOp::Stat { path: create.path.clone() };
        Dispatch::Pending(
            Task { generation: self.generation, stage: Stage::CreateStat { path: create.path, plan } },
            op,
        )
    }

    /// `QueryInformation`: an unknown `file_id` is an invalid handle;
    /// otherwise `stat` the entry's path.
    pub fn dispatch_query_information(&self, file_id: u32, class_lvl: u32) -> (d: Dispatch)
        requires
            self@.wf(),
        ensures
            query_information_dispatched(self@, file_id, class_lvl, d),
            dispatch_laws(self@, d),
    {
        match self.state.get(file_id) {
            None => Dispatch::Reply(Reply::QueryInformation { status: INVALID_HANDLE, buffer: None }),
            Some(entry) => Dispatch::Pending(
                Task { generation: self.generation, stage: Stage::QueryInformation { class_lvl } },
                FsOp::Stat { path: entry.path.clone() },
            ),
        }
    }

    /// `Close`: the `file_id` is released at once; an unknown one is an
    /// invalid handle, a directory (no filesystem handle) closes at once, and
    /// a file closes its filesystem handle.
    pub fn dispatch_close(&mut self, file_id: u32) -> (d: Dispatch)
        requires
            old(self)@.wf(),
        ensures
            final(self)@.wf(),
            close_dispatched(old(self)@, final(self)@, file_id, d),
            dispatch_laws(old(self)@, d),
    {
        match self.state.close(file_id) {
            None => Dispatch::Reply(Reply::Close { status: INVALID_HANDLE }),
            Some(entry) => match entry.fs_handle {
                None => Dispatch::Reply(Reply::Close { status: SUCCESS }),
                Some(handle) => Dispatch::Pending(
                    Task { generation: self.generation, stage: Stage::Close },
                    FsOp::Close { handle },
                ),
            },
        }
    }
}

} // verus!

verus! {

impl WasmDriveBackend {
    /// `QueryDirectory`. A continuation (`initial_query == 0`) pops the next
    /// cached entry at once, `NO_MORE_FILES` when there is none. An initial
    /// query on an unknown `file_id` is an invalid handle; otherwise it lists
    /// the entry's path, to be filtered by the search pattern `path` carries.
    pub fn dispatch_query_directory(
        &mut self,
        file_id: u32,
        class_lvl: u32,
        initial_query: u8,
        path: &str,
    ) -> (d: Dispatch)
        requires
            old(self)@.wf(),
        ensures
            final(self)@.wf(),
            query_directory_dispatched(old(self)@, final(self)@, file_id, class_lvl, initial_query, path@, d),
            dispatch_laws(old(self)@, d),
    {
        if initial_query == 0 {
            return match self.state.next_dir_entry(file_id) {
                Some(entry) => Dispatch::Reply(
                    Reply::QueryDirectory { status: SUCCESS, buffer: Some(build_dir_info(class_lvl, &entry)) },
                ),
                None => Dispatch::Reply(Reply::QueryDirectory { status: NO_MORE_FILES, buffer: None }),
            };
        }
        match self.state.get(file_id) {
            None => Dispatch::Reply(Reply::QueryDirectory { status: INVALID_HANDLE, buffer: None }),
            Some(entry) => {
                let listed = entry.path.clone();
                let pattern = dir_search_pattern(path);
                Dispatch::Pending(
                    Task {
                        generation: self.generation,
                        stage: Stage::QueryDirectory { file_id, class_lvl, pattern },
                    },
                    FsOp::List { path: listed },
                )
            },
        }
    }

    /// `Read`: a `file_id` without a filesystem handle (unknown, or a
    /// directory) is an invalid handle; otherwise read at most
    /// [`MAX_DRIVE_READ_BYTES`] of the requested length.
    pub fn dispatch_read(&self, file_id: u32, length: u32, offset: u64) -> (d: Dispatch)
        ensures
            read_dispatched(self@, file_id, length, offset, d),
            dispatch_laws(self@, d),
            self@.handle_of(file_id) is Some ==> (d matches Dispatch::Pending(
                t,
                FsOp::Read { handle, offset: at, len },
            ) && t.stage is Read && handle == self@.handle_of(file_id)->0 && at == offset
                && len <= length && len <= MAX_DRIVE_READ_BYTES && (len == length || len
                == MAX_DRIVE_READ_BYTES)),
    {
        let handle = match self.state.get(file_id) {
            Some(entry) => entry.fs_handle,
            None => None,
        };
        match handle {
            None => Dispatch::Reply(Reply::Read { status: INVALID_HANDLE, data: Vec::new() }),
            Some(handle) => {
                let len = if length < MAX_DRIVE_READ_BYTES {
                    length
                } else {
                    MAX_DRIVE_READ_BYTES
                };
                Dispatch::Pending(
                    Task { generation: self.generation, stage: Stage::Read },
                    FsOp::Read { handle, offset, len },
                )
            },
        }
    }

    /// `Write`: refused on a read-only share; a `file_id` without a
    /// filesystem handle is an invalid handle; otherwise write the data.
    pub fn dispatch_write(&self, file_id: u32, offset: u64, data: Vec<u8>) -> (d: Dispatch)
        ensures
            write_dispatched(self@, file_id, offset, data, d),
            dispatch_laws(self@, d),
            !self@.read_only && self@.handle_of(file_id) is Some ==> (d matches Dispatch::Pending(
                t,
                FsOp::Write { handle, offset: at, data: bytes },
            ) && t.stage is Write && handle == self@.handle_of(file_id)->0 && at == offset
                && bytes@ == data@),
    {
        if self.read_only {
            return Dispatch::Reply(Reply::Write { status: ACCESS_DENIED, length: 0 });
        }
        let handle = match self.state.get(file_id) {
            Some(entry) => entry.fs_handle,
            None => None,
        };
        match handle {
            None => Dispatch::Reply(Reply::Write { status: INVALID_HANDLE, length: 0 }),
            Some(handle) => Dispatch::Pending(
                Task { generation: self.generation, stage: Stage::Write },
                FsOp::Write { handle, offset, data },
            ),
        }
    }

    /// `SetInformation`: refused on a read-only share; an unknown `file_id`
    /// is an invalid handle. A rename whose target escapes the share is
    /// refused, any other renames the entry; a pending delete deletes it;
    /// clearing a delete is acknowledged at once; an end-of-file or
    /// allocation size is applied to the open file (copy engines set the
    /// destination's length before writing it); basic information is not
    /// supported.
    pub fn dispatch_set_information(&self, file_id: u32, info: SetInformation) -> (d: Dispatch)
        requires
            self@.wf(),
        ensures
            set_information_dispatched(self@, file_id, info, d),
            dispatch_laws(self@, d),
    {
        if self.read_only {
            return Dispatch::Reply(Reply::SetInformation { status: ACCESS_DENIED });
        }
        let (path, fs_handle) = match self.state.get(file_id) {
            Some(entry) => (entry.path.clone(), entry.fs_handle),
            None => {
                return Dispatch::Reply(Reply::SetInformation { status: INVALID_HANDLE });
            },
        };
        match info {
            SetInformation::Rename { file_name } => {
                if !path_is_valid(file_name.as_str()) {
                    return Dispatch::Reply(Reply::SetInformation { status: ACCESS_DENIED });
                }
                let to = file_name.clone();
                Dispatch::Pending(
                    Task { generation: self.generation, stage: Stage::Rename { file_id, to } },
                    FsOp::Rename { from: path, to: file_name },
                )
            },
            SetInformation::Disposition { delete_pending } => {
                if delete_pending != 0 {
                    Dispatch::Pending(
                        Task { generation: self.generation, stage: Stage::Delete },
                        FsOp::Delete { path },
                    )
                } else {
                    Dispatch::Reply(Reply::SetInformation { status: SUCCESS })
                }
            },
            SetInformation::EndOfFile { size } | SetInformation::Allocation { size } => match fs_handle {
                None => Dispatch::Reply(Reply::SetInformation { status: INVALID_HANDLE }),
                Some(handle) => {
                    if size < 0 {
                        Dispatch::Reply(Reply::SetInformation { status: INVALID_PARAMETER })
                    } else {
                        Dispatch::Pending(
                            Task { generation: self.generation, stage: Stage::SetLength },
                            FsOp::SetLen { handle, size: size as u64 },
                        )
                    }
                },
            },
            SetInformation::Other => Dispatch::Reply(Reply::SetInformation { status: NOT_SUPPORTED }),
        }
    }
}

} // verus!

verus! {

/// A create that ends with the entry open: in the current generation the
/// table opens `path` under the next `file_id` and the create succeeds;
/// otherwise nothing changes and nothing is sent.
pub open spec fn create_opened(
    v: BackendView,
    w: BackendView,
    current: bool,
    path: String,
    plan: CreatePlan,
    fs_handle: Option<u32>,
    is_dir: bool,
    s: Step,
) -> bool {
    if current {
        &&& w.state.entries == v.state.entries.insert(
            v.state.next_file_id,
            fresh_entry(path, fs_handle, is_dir),
        )
        &&& w.state.next_file_id == crate::state::next_id_after(v.state.next_file_id)
        &&& s == Step::Done(
            Some(
                Reply::Create {
                    status: SUCCESS,
                    file_id: v.state.next_file_id,
                    information: plan.information,
                },
            ),
        )
    } else {
        &&& w.state == v.state
        &&& s == Step::Done(None)
    }
}

/// A step that ends with `reply` in the current generation (and nothing
/// otherwise), leaving the table unchanged.
pub open spec fn finished_with(v: BackendView, w: BackendView, current: bool, reply: Reply, s: Step) -> bool {
    &&& w.state == v.state
    &&& s == Step::Done(
        if current {
            Some(reply)
        } else {
            None
        },
    )
}

/// The status of a unit filesystem result.
pub open spec fn unit_status(r: Result<(), FsError>) -> u32 {
    match r {
        Ok(()) => SUCCESS,
        Err(e) => status_for(e),
    }
}

/// What resuming `task` with `result` leads to, from `v` to `w`.
pub open spec fn resumed(v: BackendView, w: BackendView, task: Task, result: FsResult, s: Step) -> bool {
    let current = task.generation == v.generation;
    &&& w.read_only == v.read_only
    &&& w.generation == v.generation
    &&& match (task.stage, result) {
        (Stage::CreateStat { path, plan }, FsResult::Entry(r)) => match create_decision(plan, r) {
            CreateDecision::Opened { fs_handle, is_dir } => create_opened(
                v,
                w,
                current,
                path,
                plan,
                fs_handle,
                is_dir,
                s,
            ),
            CreateDecision::Failed { status } => finished_with(
                v,
                w,
                current,
                Reply::Create { status, file_id: 0, information: INFORMATION_NONE },
                s,
            ),
            CreateDecision::OpenFile => {
                &&& w.state == v.state
                &&& s == Step::Next(
                    Task { generation: task.generation, stage: Stage::CreateOpen { path, plan } },
                    FsOp::OpenFile {
                        path,
                        write: plan.write,
                        create: plan.creates_new,
                        truncate: plan.truncates,
                    },
                )
            },
            CreateDecision::Mkdir => {
                &&& w.state == v.state
                &&& s == Step::Next(
                    Task { generation: task.generation, stage: Stage::CreateMkdir { path, plan } },
                    FsOp::Mkdir { path },
                )
            },
        },
        (Stage::CreateMkdir { path, plan }, FsResult::Done(r)) => match r {
            Ok(()) => create_opened(v, w, current, path, plan, None, true, s),
            Err(e) => finished_with(
                v,
                w,
                current,
                Reply::Create { status: status_for(e), file_id: 0, information: INFORMATION_NONE },
                s,
            ),
        },
        (Stage::CreateOpen { path, plan }, FsResult::Handle(r)) => match r {
            Ok(h) => create_opened(v, w, current, path, plan, Some(h), false, s),
            Err(e) => finished_with(
                v,
                w,
                current,
                Reply::Create { status: status_for(e), file_id: 0, information: INFORMATION_NONE },
                s,
            ),
        },
        (Stage::QueryInformation { class_lvl }, FsResult::Entry(r)) => finished_with(
            v,
            w,
            current,
            match r {
                Ok(e) => match query_info(class_lvl, e) {
                    Some(i) => Reply::QueryInformation { status: SUCCESS, buffer: Some(i) },
                    None => Reply::QueryInformation { status: NOT_SUPPORTED, buffer: None },
                },
                Err(e) => Reply::QueryInformation { status: status_for(e), buffer: None },
            },
            s,
        ),
        (Stage::Close, FsResult::Done(r)) => finished_with(
            v,
            w,
            current,
            Reply::Close { status: unit_status(r) },
            s,
        ),
        (Stage::QueryDirectory { file_id, class_lvl, pattern }, FsResult::Listing(r)) => match r {
            Err(e) => finished_with(
                v,
                w,
                current,
                Reply::QueryDirectory { status: status_for(e), buffer: None },
                s,
            ),
            Ok(listing) => {
                let f = filtered(listing@, opt_view(pattern));
                let m = v.state.entries;
                if !current || !m.contains_key(file_id) {
                    finished_with(
                        v,
                        w,
                        current,
                        Reply::QueryDirectory { status: NO_SUCH_FILE, buffer: None },
                        s,
                    )
                } else {
                    let e = m[file_id];
                    let ne = w.state.entries[file_id];
                    &&& w.state.next_file_id == v.state.next_file_id
                    &&& w.state.entries == m.insert(file_id, ne)
                    &&& ne.path == e.path
                    &&& ne.fs_handle == e.fs_handle
                    &&& ne.is_dir == e.is_dir
                    &&& ne.dir_listing matches Some(l) && l@ == f
                    &&& ne.dir_cursor == (if f.len() > 0 {
                        1usize
                    } else {
                        0usize
                    })
                    &&& s == Step::Done(
                        Some(
                            if f.len() > 0 {
                                Reply::QueryDirectory {
                                    status: SUCCESS,
                                    buffer: Some(dir_info(class_lvl, f[0])),
                                }
                            } else {
                                Reply::QueryDirectory { status: NO_SUCH_FILE, buffer: None }
                            },
                        ),
                    )
                }
            },
        },
        (Stage::Read, FsResult::Data(r)) => match r {
            Ok(data) => finished_with(v, w, current, Reply::Read { status: SUCCESS, data }, s),
            Err(e) => {
                &&& w.state == v.state
                &&& if current {
                    s matches Step::Done(Some(Reply::Read { status, data })) && status == status_for(e)
                        && data@.len() == 0
                } else {
                    s == Step::Done(None)
                }
            },
        },
        (Stage::Write, FsResult::Written(r)) => finished_with(
            v,
            w,
            current,
            match r {
                Ok(n) => Reply::Write { status: SUCCESS, length: n },
                Err(e) => Reply::Write { status: status_for(e), length: 0 },
            },
            s,
        ),
        (Stage::Rename { file_id, to }, FsResult::Done(r)) => match r {
            Ok(()) => {
                let m = v.state.entries;
                &&& w.state.next_file_id == v.state.next_file_id
                &&& w.state.entries == (if current && m.contains_key(file_id) {
                    m.insert(file_id, OpenEntry { path: to, ..m[file_id] })
                } else {
                    m
                })
                &&& s == Step::Done(
                    if current {
                        Some(Reply::SetInformation { status: SUCCESS })
                    } else {
                        None
                    },
                )
            },
            Err(e) => finished_with(
                v,
                w,
                current,
                Reply::SetInformation { status: status_for(e) },
                s,
            ),
        },
        (Stage::Delete, FsResult::Done(r)) => finished_with(
            v,
            w,
            current,
            Reply::SetInformation { status: unit_status(r) },
            s,
        ),
        (Stage::SetLength, FsResult::Done(r)) => finished_with(
            v,
            w,
            current,
            Reply::SetInformation { status: unit_status(r) },
            s,
        ),
        (Stage::ResetClose { handles, next }, _) => {
            &&& w.state == v.state
            &&& if next + 1 < handles@.len() {
                s == Step::Next(
                    Task {
                        generation: task.generation,
                        stage: Stage::ResetClose { handles, next: (next + 1) as usize },
                    },
                    FsOp::Close { handle: handles@[next + 1] },
                )
            } else {
                s == Step::Done(None)
            }
        },
        // A result of another kind than the task waits for ends it, changing
        // nothing and sending nothing.
        _ => {
            &&& w.state == v.state
            &&& s == Step::Done(None)
        },
    }
}

} // verus!

verus! {

impl WasmDriveBackend {
    /// Ends a create whose entry is open: opens it in the table when the
    /// task is of the current generation.
    fn finish_create(
        &mut self,
        current: bool,
        path: String,
        plan: CreatePlan,
        fs_handle: Option<u32>,
        is_dir: bool,
    ) -> (s: Step)
        requires
            old(self)@.wf(),
            path_ok(path@),
        ensures
            final(self)@.wf(),
            final(self)@.read_only == old(self)@.read_only,
            final(self)@.generation == old(self)@.generation,
            create_opened(old(self)@, final(self)@, current, path, plan, fs_handle, is_dir, s),
    {
        if current {
            let ghost p = path;
            let file_id = self.state.open(path, fs_handle, is_dir);
            proof {
                assert forall|id: u32| #[trigger]
                    self@.state.entries.contains_key(id) implies path_ok(
                    self@.state.entries[id].path@,
                ) by {
                    if id != file_id {
                        assert(old(self)@.state.entries.contains_key(id));
                    }
                }
            }
            Step::Done(
                Some(Reply::Create { status: SUCCESS, file_id, information: plan.information }),
            )
        } else {
            Step::Done(None)
        }
    }

    /// Continues `task` with the result of the operation it was waiting
    /// for: names the next operation, or ends with the completion to send.
    /// A task of an older generation than the backend's never changes the
    /// table and never sends a completion; a result of another kind than the
    /// task waits for ends it the same way (a reset's closing of stale handles
    /// goes on whatever each close answered).
    pub fn resume(&mut self, task: Task, result: FsResult) -> (s: Step)
        requires
            old(self)@.wf(),
            task.wf(),
        ensures
            final(self)@.wf(),
            resumed(old(self)@, final(self)@, task, result, s),
            task.generation != old(self)@.generation ==> final(self)@ == old(self)@ && (s is Done
                ==> s->Done_0 is None),
            s matches Step::Next(t, op) ==> pending_ok(t, op),
            task.stage.read_only_safe() ==> (s matches Step::Next(t, op) ==> t.stage.read_only_safe()
                && !op.mutates()),
    {
        let current = task.generation == self.generation;
        let ghost old_task = task;
        let Task { generation, stage } = task;
        match stage {
            Stage::CreateStat { path, plan } => {
                let stat = match result {
                    FsResult::Entry(r) => r,
                    _ => {
                        return Step::Done(None);
                    },
                };
                match resolve_create_outcome(&plan, stat) {
                    CreateStep::Opened { fs_handle, is_dir } => {
                        self.finish_create(current, path, plan, fs_handle, is_dir)
                    },
                    CreateStep::Failed(err) => {
                        let status = create_status_for(&err);
                        Step::Done(
                            if current {
                                Some(
                                    Reply::Create {
                                        status,
                                        file_id: 0,
                                        information: INFORMATION_NONE,
                                    },
                                )
                            } else {
                                None
                            },
                        )
                    },
                    CreateStep::OpenFile => {
                        let op = FsOp::OpenFile {
                            path: path.clone(),
                            write: plan.write,
                            create: plan.creates_new,
                            truncate: plan.truncates,
                        };
                        Step::Next(Task { generation, stage: Stage::CreateOpen { path, plan } }, op)
                    },
                    CreateStep::Mkdir => {
                        let op = FsOp::Mkdir { path: path.clone() };
                        Step::Next(Task { generation, stage: Stage::CreateMkdir { path, plan } }, op)
                    },
                }
            },
            Stage::CreateMkdir { path, plan } => {
                let r = match result {
                    FsResult::Done(r) => r,
                    _ => {
                        return Step::Done(None);
                    },
                };
                match r {
                    Ok(()) => self.finish_create(current, path, plan, None, true),
                    Err(e) => {
                        let status = nt_status_for(&e);
                        Step::Done(
                            if current {
                                Some(
                                    Reply::Create {
                                        status,
                                        file_id: 0,
                                        information: INFORMATION_NONE,
                                    },
                                )
                            } else {
                                None
                            },
                        )
                    },
                }
            },
            Stage::CreateOpen { path, plan } => {
                let r = match result {
                    FsResult::Handle(r) => r,
                    _ => {
                        return Step::Done(None);
                    },
                };
                match r {
                    Ok(h) => self.finish_create(current, path, plan, Some(h), false),
                    Err(e) => {
                        let status = nt_status_for(&e);
                        Step::Done(
                            if current {
                                Some(
                                    Reply::Create {
                                        status,
                                        file_id: 0,
                                        information: INFORMATION_NONE,
                                    },
                                )
                            } else {
                                None
                            },
                        )
                    },
                }
            },
            Stage::QueryInformation { class_lvl } => {
                let r = match result {
                    FsResult::Entry(r) => r,
                    _ => {
                        return Step::Done(None);
                    },
                };
                let reply = match r {
                    Ok(entry) => match build_query_info(class_lvl, &entry) {
                        Some(info) => Reply::QueryInformation { status: SUCCESS, buffer: Some(info) },
                        None => Reply::QueryInformation { status: NOT_SUPPORTED, buffer: None },
                    },
                    Err(e) => Reply::QueryInformation { status: nt_status_for(&e), buffer: None },
                };
                Step::Done(
                    if current {
                        Some(reply)
                    } else {
                        None
                    },
                )
            },
            Stage::Close => {
                let r = match result {
                    FsResult::Done(r) => r,
                    _ => {
                        return Step::Done(None);
                    },
                };
                let status = match r {
                    Ok(()) => SUCCESS,
                    Err(e) => nt_status_for(&e),
                };
                Step::Done(
                    if current {
                        Some(Reply::Close { status })
                    } else {
                        None
                    },
                )
            },
            Stage::QueryDirectory { file_id, class_lvl, pattern } => {
                let r = match result {
                    FsResult::Listing(r) => r,
                    _ => {
                        return Step::Done(None);
                    },
                };
                match r {
                    Err(e) => {
                        let status = nt_status_for(&e);
                        Step::Done(
                            if current {
                                Some(Reply::QueryDirectory { status, buffer: None })
                            } else {
                                None
                            },
                        )
                    },
                    Ok(listing) => {
                        let kept = filter_listing(listing, &pattern);
                        if !current {
                            return Step::Done(None);
                        }
                        let ghost m = self@.state.entries;
                        let found = self.state.set_dir_listing(file_id, kept);
                        let popped = self.state.next_dir_entry(file_id);
                        proof {
                            assert forall|id: u32| #[trigger]
                                self@.state.entries.contains_key(id) implies path_ok(
                                self@.state.entries[id].path@,
                            ) by {
                                assert(m.contains_key(id));
                            }
                            if found {
                                assert(self@.state.entries =~= m.insert(
                                    file_id,
                                    self@.state.entries[file_id],
                                ));
                            }
                        }
                        match popped {
                            Some(entry) => Step::Done(
                                Some(
                                    Reply::QueryDirectory {
                                        status: SUCCESS,
                                        buffer: Some(build_dir_info(class_lvl, &entry)),
                                    },
                                ),
                            ),
                            None => Step::Done(
                                Some(Reply::QueryDirectory { status: NO_SUCH_FILE, buffer: None }),
                            ),
                        }
                    },
                }
            },
            Stage::Read => {
                let r = match result {
                    FsResult::Data(r) => r,
                    _ => {
                        return Step::Done(None);
                    },
                };
                let reply = match r {
                    Ok(data) => Reply::Read { status: SUCCESS, data },
                    Err(e) => Reply::Read { status: nt_status_for(&e), data: Vec::new() },
                };
                Step::Done(
                    if current {
                        Some(reply)
                    } else {
                        None
                    },
                )
            },
            Stage::Write => {
                let r = match result {
                    FsResult::Written(r) => r,
                    _ => {
                        return Step::Done(None);
                    },
                };
                let reply = match r {
                    Ok(n) => Reply::Write { status: SUCCESS, length: n },
                    Err(e) => Reply::Write { status: nt_status_for(&e), length: 0 },
                };
                Step::Done(
                    if current {
                        Some(reply)
                    } else {
                        None
                    },
                )
            },
            Stage::Rename { file_id, to } => {
                let r = match result {
                    FsResult::Done(r) => r,
                    _ => {
                        return Step::Done(None);
                    },
                };
                match r {
                    Ok(()) => {
                        if current {
                            let ghost m = self@.state.entries;
                            let _ = self.state.set_path(file_id, to);
                            proof {
                                assert forall|id: u32| #[trigger]
                                    self@.state.entries.contains_key(id) implies path_ok(
                                    self@.state.entries[id].path@,
                                ) by {
                                    assert(m.contains_key(id));
                                }
                            }
                            Step::Done(Some(Reply::SetInformation { status: SUCCESS }))
                        } else {
                            Step::Done(None)
                        }
                    },
                    Err(e) => {
                        let status = nt_status_for(&e);
                        Step::Done(
                            if current {
                                Some(Reply::SetInformation { status })
                            } else {
                                None
                            },
                        )
                    },
                }
            },
            Stage::Delete => {
                let r = match result {
                    FsResult::Done(r) => r,
                    _ => {
                        return Step::Done(None);
                    },
                };
                let status = match r {
                    Ok(()) => SUCCESS,
                    Err(e) => nt_status_for(&e),
                };
                Step::Done(
                    if current {
                        Some(Reply::SetInformation { status })
                    } else {
                        None
                    },
                )
            },
            Stage::SetLength => {
                let r = match result {
                    FsResult::Done(r) => r,
                    _ => {
                        return Step::Done(None);
                    },
                };
                let status = match r {
                    Ok(()) => SUCCESS,
                    Err(e) => nt_status_for(&e),
                };
                Step::Done(
                    if current {
                        Some(Reply::SetInformation { status })
                    } else {
                        None
                    },
                )
            },
            Stage::ResetClose { handles, next } => {
                assert(next < handles@.len());
                if handles.len() - next > 1 {
                    let handle = handles[next + 1];
                    Step::Next(
                        Task { generation, stage: Stage::ResetClose { handles, next: next + 1 } },
                        FsOp::Close { handle },
                    )
                } else {
                    Step::Done(None)
                }
            },
        }
    }
}

} // verus!

verus! {

/// The `QueryVolumeInformation` completion for `fs_info_class_lvl`:
/// `SUCCESS` with the volume's answer, or `NOT_SUPPORTED` with none.
pub open spec fn volume_reply_for(fs_info_class_lvl: u32, reply: Reply) -> bool {
    reply matches Reply::QueryVolumeInformation { status, buffer } && volume_info_for(
        fs_info_class_lvl,
        buffer,
    ) && status == (if buffer is Some {
        SUCCESS
    } else {
        NOT_SUPPORTED
    })
}

/// Answers a `QueryVolumeInformation` at once (no filesystem operation is
/// needed: the reported volume is fixed).
pub fn query_volume_information_response(fs_info_class_lvl: u32) -> (reply: Reply)
    ensures
        volume_reply_for(fs_info_class_lvl, reply),
{
    let buffer = build_volume_info(fs_info_class_lvl);
    let status = if buffer.is_some() {
        SUCCESS
    } else {
        NOT_SUPPORTED
    };
    Reply::QueryVolumeInformation { status, buffer }
}

/// What any drive IRP leads to, from `v` to `w`.
pub open spec fn request_dispatched(v: BackendView, w: BackendView, req: DriveRequest, d: Dispatch) -> bool {
    match req {
        DriveRequest::Create(c) => w == v && create_dispatched(v, c, d),
        DriveRequest::QueryInformation { file_id, class_lvl } => w == v
            && query_information_dispatched(v, file_id, class_lvl, d),
        DriveRequest::Close { file_id } => close_dispatched(v, w, file_id, d),
        DriveRequest::QueryDirectory { file_id, class_lvl, initial_query, path } =>
            query_directory_dispatched(v, w, file_id, class_lvl, initial_query, path@, d),
        DriveRequest::NotifyChangeDirectory => w == v && d is NoReply,
        DriveRequest::QueryVolumeInformation { fs_info_class_lvl } => {
            &&& w == v
            &&& d matches Dispatch::Reply(r) && volume_reply_for(fs_info_class_lvl, r)
        },
        DriveRequest::DeviceControl => w == v && d == Dispatch::Reply(
            Reply::DeviceControl { status: SUCCESS },
        ),
        DriveRequest::Read { file_id, length, offset } => w == v && read_dispatched(
            v,
            file_id,
            length,
            offset,
            d,
        ),
        DriveRequest::Write { file_id, offset, data } => w == v && write_dispatched(
            v,
            file_id,
            offset,
            data,
            d,
        ),
        DriveRequest::FlushBuffers => w == v && d == Dispatch::Reply(
            Reply::FlushBuffers { status: SUCCESS },
        ),
        DriveRequest::SetInformation { file_id, info } => w == v && set_information_dispatched(
            v,
            file_id,
            info,
            d,
        ),
        DriveRequest::LockControl => w == v && d == Dispatch::Reply(
            Reply::LockControl { status: SUCCESS },
        ),
        DriveRequest::QuerySecurity => w == v && d == Dispatch::Reply(
            Reply::QuerySecurity { status: NOT_SUPPORTED },
        ),
        DriveRequest::SetSecurity => w == v && d == Dispatch::Reply(
            Reply::SetSecurity { status: NOT_SUPPORTED },
        ),
    }
}

/// What a reset leaves behind for `hs`, the filesystem handles the table
/// held: nothing when there were none, else a task in generation `g` that
/// closes them in order, starting with the first.
pub open spec fn reset_closes(hs: Seq<u32>, g: u64, r: Option<(Task, FsOp)>) -> bool {
    if hs.len() == 0 {
        r is None
    } else {
        &&& r matches Some((t, op))
        &&& t.generation == g
        &&& t.stage matches Stage::ResetClose { handles, next }
        &&& handles@ == hs
        &&& next == 0
        &&& op == FsOp::Close { handle: hs[0] }
    }
}

impl WasmDriveBackend {
    /// Answers a server drive IRP: at once where the table alone decides it,
    /// or by naming the filesystem operation to run. Change notifications
    /// are never answered (left pending, as other drive clients do); device
    /// control, flush and lock control are acknowledged at once (every write
    /// is already applied, and byte-range locks mean nothing on a browser
    /// share); security queries and updates are not supported.
    pub fn handle_drive_io_request(&mut self, req: DriveRequest) -> (d: Dispatch)
        requires
            old(self)@.wf(),
        ensures
            final(self)@.wf(),
            request_dispatched(old(self)@, final(self)@, req, d),
            dispatch_laws(old(self)@, d),
    {
        match req {
            DriveRequest::Create(create) => self.dispatch_create(create),
            DriveRequest::QueryInformation { file_id, class_lvl } => self.dispatch_query_information(
                file_id,
                class_lvl,
            ),
            DriveRequest::Close { file_id } => self.dispatch_close(file_id),
            DriveRequest::QueryDirectory { file_id, class_lvl, initial_query, path } => {
                self.dispatch_query_directory(file_id, class_lvl, initial_query, path.as_str())
            },
            DriveRequest::NotifyChangeDirectory => Dispatch::NoReply,
            DriveRequest::QueryVolumeInformation { fs_info_class_lvl } => Dispatch::Reply(
                query_volume_information_response(fs_info_class_lvl),
            ),
            DriveRequest::DeviceControl => Dispatch::Reply(Reply::DeviceControl { status: SUCCESS }),
            DriveRequest::Read { file_id, length, offset } => self.dispatch_read(file_id, length, offset),
            DriveRequest::Write { file_id, offset, data } => self.dispatch_write(file_id, offset, data),
            DriveRequest::FlushBuffers => Dispatch::Reply(Reply::FlushBuffers { status: SUCCESS }),
            DriveRequest::SetInformation { file_id, info } => self.dispatch_set_information(file_id, info),
            DriveRequest::LockControl => Dispatch::Reply(Reply::LockControl { status: SUCCESS }),
            DriveRequest::QuerySecurity => Dispatch::Reply(Reply::QuerySecurity { status: NOT_SUPPORTED }),
            DriveRequest::SetSecurity => Dispatch::Reply(Reply::SetSecurity { status: NOT_SUPPORTED }),
        }
    }

    /// Starts a new RDPDR sequence: bumps the generation (so every task
    /// started before completes with no reply and no effect), empties the
    /// table so ids restart at 1, and returns a task that closes, best
    /// effort, every filesystem handle the old table held.
    pub fn reset(&mut self) -> (r: Option<(Task, FsOp)>)
        requires
            old(self)@.wf(),
        ensures
            final(self)@.wf(),
            final(self)@.read_only == old(self)@.read_only,
            final(self)@.generation == next_generation(old(self)@.generation),
            final(self)@.state.entries == Map::<u32, OpenEntry>::empty(),
            final(self)@.state.next_file_id == 1,
            exists|ids: Seq<u32>|
                {
                    &&& ids.no_duplicates()
                    &&& ids.to_set() == old(self)@.state.entries.dom()
                    &&& reset_closes(
                        handles_of(old(self)@.state.entries, ids),
                        final(self)@.generation,
                        r,
                    )
                },
            r matches Some((t, op)) ==> pending_ok(t, op) && t.stage.read_only_safe()
                && !op.mutates(),
    {
        self.generation = self.generation.wrapping_add(1);
        let stale = self.state.open_fs_handles();
        let ghost ids = choose|ids: Seq<u32>|
            {
                &&& ids.no_duplicates()
                &&& ids.to_set() == old(self)@.state.entries.dom()
                &&& stale@ == handles_of(old(self)@.state.entries, ids)
            };
        self.state = DriveState::new();
        let r = if stale.len() == 0 {
            None
        } else {
            let first = stale[0];
            Some(
                (
                    Task { generation: self.generation, stage: Stage::ResetClose { handles: stale, next: 0 } },
                    FsOp::Close { handle: first },
                ),
            )
        };
        assert(reset_closes(handles_of(old(self)@.state.entries, ids), self.generation, r));
        r
    }
}

} // verus!
