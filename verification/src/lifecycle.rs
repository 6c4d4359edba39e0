//! Laws that relate successive IRPs on one backend: what a close, a rename,
//! a create or a reset means for the IRPs that follow it.

use vstd::prelude::*;

use crate::backend::{
    close_dispatched, create_dispatched, dispatch_laws, MAX_DRIVE_READ_BYTES, filtered, request_dispatched, DriveRequest, next_generation, opt_view, query_directory_dispatched,
    query_information_dispatched, read_dispatched, resumed, set_information_dispatched, write_dispatched,
    BackendView, CreateRequest, Dispatch, FsOp, FsResult, Reply, SetInformation, Stage, Step, Task,
};
use crate::entry::{FsEntry, FsError};
use crate::info::dir_info;
use crate::path::path_ok;
use crate::protocol::{
    ACCESS_DENIED, FILE_CREATE, FILE_CREATED, FILE_DIRECTORY_FILE, FILE_IS_A_DIRECTORY,
    FILE_NON_DIRECTORY_FILE, FILE_OPEN, FILE_OPENED, FILE_OVERWRITE, FILE_OVERWRITE_IF,
    FILE_SUPERSEDE, INFORMATION_NONE, UNSUCCESSFUL, INVALID_HANDLE, NO_MORE_FILES, NO_SUCH_FILE, SUCCESS,
    WRITE_ACCESS_BITS,
};

verus! {

/// Once a `file_id` is closed, every IRP that names it is refused as an
/// invalid handle: a `QueryInformation`, a `Read`, and a `SetInformation` on
/// a writable share.
pub proof fn lemma_closed_id_is_invalid_handle(
    v: BackendView,
    w: BackendView,
    file_id: u32,
    closed: Dispatch,
    class_lvl: u32,
    queried: Dispatch,
    length: u32,
    offset: u64,
    read: Dispatch,
    info: SetInformation,
    set: Dispatch,
)
    requires
        v.wf(),
        close_dispatched(v, w, file_id, closed),
        query_information_dispatched(w, file_id, class_lvl, queried),
        read_dispatched(w, file_id, length, offset, read),
        set_information_dispatched(w, file_id, info, set),
    ensures
        queried == Dispatch::Reply(Reply::QueryInformation { status: INVALID_HANDLE, buffer: None }),
        read matches Dispatch::Reply(Reply::Read { status, .. }) && status == INVALID_HANDLE,
        !w.read_only ==> set == Dispatch::Reply(Reply::SetInformation { status: INVALID_HANDLE }),
{
    assert(!w.state.entries.contains_key(file_id));
}

/// After a successful rename of an open entry, a `QueryInformation` on the
/// same `file_id` looks up the new path.
pub proof fn lemma_rename_retargets_the_entry(
    v: BackendView,
    w: BackendView,
    file_id: u32,
    file_name: String,
    task: Task,
    op: FsOp,
    done: Step,
    class_lvl: u32,
    queried: Dispatch,
)
    requires
        v.wf(),
        set_information_dispatched(
            v,
            file_id,
            SetInformation::Rename { file_name },
            Dispatch::Pending(task, op),
        ),
        resumed(v, w, task, FsResult::Done(Ok(())), done),
        query_information_dispatched(w, file_id, class_lvl, queried),
    ensures
        done == Step::Done(Some(Reply::SetInformation { status: SUCCESS })),
        queried matches Dispatch::Pending(_, FsOp::Stat { path }) && path == file_name,
{
}

/// A create that succeeds opens the path it was asked for under the
/// `file_id` it reports, so a `QueryInformation` on that id looks up that
/// path.
pub proof fn lemma_created_id_names_its_path(
    v: BackendView,
    w: BackendView,
    task: Task,
    result: FsResult,
    done: Step,
    file_id: u32,
    class_lvl: u32,
    queried: Dispatch,
)
    requires
        v.wf(),
        resumed(v, w, task, result, done),
        done matches Step::Done(Some(Reply::Create { status, file_id: id, .. })) && status == SUCCESS
            && id == file_id,
        query_information_dispatched(w, file_id, class_lvl, queried),
    ensures
        task.stage matches Stage::CreateStat { path, .. } || task.stage matches Stage::CreateMkdir {
            path,
            ..
        } || task.stage matches Stage::CreateOpen { path, .. },
        match task.stage {
            Stage::CreateStat { path, .. } | Stage::CreateMkdir { path, .. } | Stage::CreateOpen {
                path,
                ..
            } => queried matches Dispatch::Pending(_, FsOp::Stat { path: p }) && p == path,
            _ => false,
        },
{
}

/// A directory listing that has run out stays run out: every further
/// continuation answers `NO_MORE_FILES` and leaves the table as it was.
pub proof fn lemma_exhausted_listing_stays_exhausted(
    v: BackendView,
    w: BackendView,
    u: BackendView,
    file_id: u32,
    class_lvl: u32,
    path: Seq<char>,
    first: Dispatch,
    next_class_lvl: u32,
    next_path: Seq<char>,
    next: Dispatch,
)
    requires
        query_directory_dispatched(v, w, file_id, class_lvl, 0, path, first),
        first == Dispatch::Reply(Reply::QueryDirectory { status: NO_MORE_FILES, buffer: None }),
        query_directory_dispatched(w, u, file_id, next_class_lvl, 0, next_path, next),
    ensures
        next == Dispatch::Reply(Reply::QueryDirectory { status: NO_MORE_FILES, buffer: None }),
        u.state == w.state,
        w.state == v.state,
{
}

/// A task of another generation than the backend's changes nothing, sends
/// nothing, and whatever it goes on to stays of that generation.
pub proof fn lemma_stale_task_is_silent(
    v: BackendView,
    w: BackendView,
    task: Task,
    result: FsResult,
    s: Step,
)
    requires
        task.generation != v.generation,
        resumed(v, w, task, result, s),
    ensures
        w == v,
        s matches Step::Done(reply) ==> reply is None,
        s matches Step::Next(t, _) ==> t.generation == task.generation,
{
}

/// A reset silences every task dispatched before it: such a task is of
/// another generation than the reset backend's, so it never changes the
/// table and never answers.
pub proof fn lemma_reset_silences_earlier_tasks(
    v: BackendView,
    task: Task,
    op: FsOp,
    w: BackendView,
    result: FsResult,
    u: BackendView,
    s: Step,
)
    requires
        dispatch_laws(v, Dispatch::Pending(task, op)),
        w.generation == next_generation(v.generation),
        resumed(w, u, task, result, s),
    ensures
        u == w,
        s matches Step::Done(reply) ==> reply is None,
        s matches Step::Next(t, _) ==> t.generation != w.generation,
{
    lemma_stale_task_is_silent(w, u, task, result, s);
}

/// On a read-only share a task only ever goes on to operations that leave
/// the share unchanged: every task a read-only backend dispatches starts so,
/// and resuming such a task keeps it so, whatever the filesystem answered.
pub proof fn lemma_read_only_tasks_never_mutate(
    v: BackendView,
    w: BackendView,
    task: Task,
    result: FsResult,
    s: Step,
)
    requires
        task.stage.read_only_safe(),
        resumed(v, w, task, result, s),
    ensures
        s matches Step::Next(t, op) ==> t.stage.read_only_safe() && !op.mutates(),
{
}

/// The answer a continuation gives at position `i` of the cached listing
/// `f`: that entry, or `NO_MORE_FILES` past the end.
pub open spec fn continuation_answer(f: Seq<FsEntry>, i: int, class_lvl: u32) -> Dispatch {
    if 0 <= i < f.len() {
        Dispatch::Reply(
            Reply::QueryDirectory { status: SUCCESS, buffer: Some(dir_info(class_lvl, f[i])) },
        )
    } else {
        Dispatch::Reply(Reply::QueryDirectory { status: NO_MORE_FILES, buffer: None })
    }
}

/// A run of continuations on `file_id`: `ds[k]` answers the `k`-th, taking
/// the backend from `vs[k]` to `vs[k + 1]`.
pub open spec fn continuation_run(
    vs: Seq<BackendView>,
    ds: Seq<Dispatch>,
    lvls: Seq<u32>,
    paths: Seq<Seq<char>>,
    file_id: u32,
) -> bool {
    &&& vs.len() == ds.len() + 1
    &&& lvls.len() == ds.len()
    &&& paths.len() == ds.len()
    &&& forall|k: int|
        #![trigger ds[k]]
        0 <= k < ds.len() ==> query_directory_dispatched(vs[k], vs[k + 1], file_id, lvls[k], 0, paths[k], ds[k])
}

/// Along a run of continuations, the entry keeps its listing and its
/// cursor advances one step per answer until the end of the listing.
proof fn lemma_continuation_cursor(
    vs: Seq<BackendView>,
    ds: Seq<Dispatch>,
    lvls: Seq<u32>,
    paths: Seq<Seq<char>>,
    file_id: u32,
    f: Seq<FsEntry>,
    start: int,
    i: int,
)
    requires
        continuation_run(vs, ds, lvls, paths, file_id),
        0 <= start <= f.len(),
        vs[0].state.entries.contains_key(file_id),
        vs[0].state.entries[file_id].dir_listing matches Some(l) && l@ == f,
        vs[0].state.entries[file_id].dir_cursor == start,
        0 <= i <= ds.len(),
    ensures
        vs[i].state.entries.contains_key(file_id),
        vs[i].state.entries[file_id].dir_listing matches Some(l) && l@ == f,
        vs[i].state.entries[file_id].dir_cursor == (if start + i <= f.len() {
            start + i
        } else {
            f.len() as int
        }),
        i < ds.len() ==> ds[i] == continuation_answer(f, start + i, lvls[i]),
    decreases i,
{
    if i > 0 {
        lemma_continuation_cursor(vs, ds, lvls, paths, file_id, f, start, i - 1);
        let k = i - 1;
        assert(query_directory_dispatched(vs[k], vs[k + 1], file_id, lvls[k], 0, paths[k], ds[k]));
        let e = vs[k].state.entries[file_id];
        assert(e.dir_listing->0@ == f);
        vstd::std_specs::vec::axiom_spec_len(&e.dir_listing->0);
        assert(e.dir_listing->0.len() == f.len());
        if e.dir_cursor < f.len() {
            assert(vs[i].state.entries == vs[k].state.entries.insert(
                file_id,
                crate::state::OpenEntry { dir_cursor: (e.dir_cursor + 1) as usize, ..e },
            ));
        } else {
            assert(vs[i].state.entries == vs[k].state.entries);
        }
    }
    if i < ds.len() {
        assert(query_directory_dispatched(vs[i], vs[i + 1], file_id, lvls[i], 0, paths[i], ds[i]));
        let e = vs[i].state.entries[file_id];
        assert(e.dir_listing->0@ == f);
    }
}

/// The answers to an initial directory query and the continuations after
/// it: with `f` the listing filtered by the query's pattern, in listing
/// order, the initial query answers `f[0]` (`NO_SUCH_FILE` when nothing
/// matched), the continuations answer `f[1]`, `f[2]`, ... in turn, and every
/// continuation after the last entry answers `NO_MORE_FILES`.
pub proof fn lemma_directory_answers_walk_the_listing(
    v: BackendView,
    task: Task,
    file_id: u32,
    class_lvl: u32,
    pattern: Option<String>,
    listing: Vec<FsEntry>,
    first: Step,
    vs: Seq<BackendView>,
    ds: Seq<Dispatch>,
    lvls: Seq<u32>,
    paths: Seq<Seq<char>>,
)
    requires
        task.generation == v.generation,
        task.stage == (Stage::QueryDirectory { file_id, class_lvl, pattern }),
        v.state.entries.contains_key(file_id),
        resumed(v, vs[0], task, FsResult::Listing(Ok(listing)), first),
        continuation_run(vs, ds, lvls, paths, file_id),
    ensures
        ({
            let f = filtered(listing@, opt_view(pattern));
            &&& first == Step::Done(
                Some(
                    if f.len() > 0 {
                        Reply::QueryDirectory { status: SUCCESS, buffer: Some(dir_info(class_lvl, f[0])) }
                    } else {
                        Reply::QueryDirectory { status: NO_SUCH_FILE, buffer: None }
                    },
                ),
            )
            &&& forall|k: int|
                #![trigger ds[k]]
                0 <= k < ds.len() ==> ds[k] == continuation_answer(
                    f,
                    (if f.len() > 0 {
                        1int
                    } else {
                        0int
                    }) + k,
                    lvls[k],
                )
        }),
{
    let f = filtered(listing@, opt_view(pattern));
    let start: int = if f.len() > 0 {
        1
    } else {
        0
    };
    assert(vs[0].state.entries[file_id] == vs[0].state.entries[file_id]);
    assert forall|k: int| #![trigger ds[k]] 0 <= k < ds.len() implies ds[k] == continuation_answer(
        f,
        start + k,
        lvls[k],
    ) by {
        lemma_continuation_cursor(vs, ds, lvls, paths, file_id, f, start, k);
    }
}

/// Every IRP but a change notification is answered: its dispatch yields an
/// answer at once or a task; only a change notification is left pending.
pub proof fn lemma_only_notifications_go_unanswered(v: BackendView, w: BackendView, req: DriveRequest, d: Dispatch)
    requires
        v.wf(),
        request_dispatched(v, w, req, d),
    ensures
        (d is NoReply) == (req is NotifyChangeDirectory),
{
}

/// A set-information IRP is answered exactly once: either at once, or by
/// its task, which ends with its single answer as soon as the filesystem
/// operation it names comes back (in the same generation), whatever that
/// operation answered.
pub proof fn lemma_set_information_answered_once(
    v: BackendView,
    file_id: u32,
    info: SetInformation,
    d: Dispatch,
    w: BackendView,
    result: FsResult,
    s: Step,
)
    requires
        v.wf(),
        set_information_dispatched(v, file_id, info, d),
        d matches Dispatch::Pending(t, op) ==> op.answers(result) && resumed(v, w, t, result, s),
    ensures
        d is Reply || (d is Pending && s matches Step::Done(Some(Reply::SetInformation { .. }))),
{
}

/// A `Create` of a file that exists opens it, after its `stat`, with the
/// create and truncate flags the disposition calls for: it truncates exactly
/// for `FILE_SUPERSEDE`, `FILE_OVERWRITE` and `FILE_OVERWRITE_IF` (so the old
/// contents are discarded), and may create for every disposition but
/// `FILE_OPEN`.
pub proof fn lemma_create_over_a_file_opens_it_as_the_disposition_says(
    v: BackendView,
    c: CreateRequest,
    d: Dispatch,
    existing: FsEntry,
    w: BackendView,
    s: Step,
)
    requires
        v.wf(),
        !v.read_only,
        path_ok(c.path@),
        c.create_options & FILE_DIRECTORY_FILE == 0,
        !existing.is_dir,
        create_dispatched(v, c, d),
        d matches Dispatch::Pending(t, _) ==> resumed(v, w, t, FsResult::Entry(Ok(existing)), s),
    ensures
        d matches Dispatch::Pending(_, FsOp::Stat { path }) && path == c.path,
        s matches Step::Next(_, FsOp::OpenFile { path, create, truncate, .. }) && path == c.path
            && (truncate <==> (c.create_disposition == FILE_SUPERSEDE || c.create_disposition
            == FILE_OVERWRITE || c.create_disposition == FILE_OVERWRITE_IF)) && (create
            <==> c.create_disposition != FILE_OPEN),
{
}

/// A `Write` on a file open with a filesystem handle, on a writable share,
/// writes the IRP's data through that handle at the IRP's offset; a `Read`
/// reads through the handle at its offset, at most the requested length and
/// never more than `MAX_DRIVE_READ_BYTES`.
pub proof fn lemma_data_goes_where_the_irp_says(
    v: BackendView,
    file_id: u32,
    offset: u64,
    data: Vec<u8>,
    written: Dispatch,
    length: u32,
    read: Dispatch,
)
    requires
        v.wf(),
        v.state.entries.contains_key(file_id),
        v.state.entries[file_id].fs_handle is Some,
        write_dispatched(v, file_id, offset, data, written),
        read_dispatched(v, file_id, length, offset, read),
    ensures
        !v.read_only ==> (written matches Dispatch::Pending(
            t,
            FsOp::Write { handle, offset: at, data: bytes },
        ) && t.stage is Write && Some(handle) == v.state.entries[file_id].fs_handle && at == offset
            && bytes@ == data@),
        read matches Dispatch::Pending(t, FsOp::Read { handle, offset: at, len }) && t.stage is Read
            && Some(handle) == v.state.entries[file_id].fs_handle && at == offset && len <= length
            && len <= MAX_DRIVE_READ_BYTES && (len == length || len == MAX_DRIVE_READ_BYTES),
{
}

/// A read-only share refuses, with `ACCESS_DENIED` and before touching the
/// filesystem, every `Create` that asks for a write-capable access or for a
/// disposition other than `FILE_OPEN`, every `Write` and every
/// `SetInformation`; a plain open of a valid path still goes on to its
/// `stat`.
pub proof fn lemma_read_only_share_refuses_modification(
    v: BackendView,
    c: CreateRequest,
    created: Dispatch,
    file_id: u32,
    offset: u64,
    data: Vec<u8>,
    written: Dispatch,
    info: SetInformation,
    set: Dispatch,
)
    requires
        v.wf(),
        v.read_only,
        create_dispatched(v, c, created),
        write_dispatched(v, file_id, offset, data, written),
        set_information_dispatched(v, file_id, info, set),
    ensures
        (c.create_disposition != FILE_OPEN || c.desired_access & WRITE_ACCESS_BITS != 0) ==> created
            == Dispatch::Reply(
            Reply::Create { status: ACCESS_DENIED, file_id: 0, information: INFORMATION_NONE },
        ),
        (c.create_disposition == FILE_OPEN && c.desired_access & WRITE_ACCESS_BITS == 0 && path_ok(
            c.path@,
        )) ==> (created matches Dispatch::Pending(_, FsOp::Stat { path }) && path == c.path),
        written == Dispatch::Reply(Reply::Write { status: ACCESS_DENIED, length: 0 }),
        set == Dispatch::Reply(Reply::SetInformation { status: ACCESS_DENIED }),
{
}

/// A `Create` honours the type flags against what `stat` found:
/// * committed to a directory, it opens an existing directory (as a new
///   `file_id` with no filesystem handle, reporting `FILE_CREATED` for
///   `FILE_CREATE` and `FILE_OPENED` otherwise), fails with `UNSUCCESSFUL` on
///   an existing file, and for a missing path makes the directory, or fails
///   with `NO_SUCH_FILE` under `FILE_OPEN`;
/// * committed to a non-directory, it fails with `FILE_IS_A_DIRECTORY` on an
///   existing directory;
/// * not committed to a directory, a missing path goes on to a file open of
///   that path.
pub proof fn lemma_create_honours_the_type_flags(
    v: BackendView,
    c: CreateRequest,
    d: Dispatch,
    stat: Result<FsEntry, FsError>,
    w: BackendView,
    s: Step,
)
    requires
        v.wf(),
        !v.read_only,
        path_ok(c.path@),
        create_dispatched(v, c, d),
        d matches Dispatch::Pending(t, _) ==> resumed(v, w, t, FsResult::Entry(stat), s),
    ensures
        (c.create_options & FILE_DIRECTORY_FILE != 0 && stat is Ok && stat->Ok_0.is_dir) ==> (s
            == Step::Done(
            Some(
                Reply::Create {
                    status: SUCCESS,
                    file_id: v.state.next_file_id,
                    information: if c.create_disposition == FILE_CREATE {
                        FILE_CREATED
                    } else {
                        FILE_OPENED
                    },
                },
            ),
        ) && w.state.entries.contains_key(v.state.next_file_id)
            && w.state.entries[v.state.next_file_id].path == c.path
            && w.state.entries[v.state.next_file_id].is_dir
            && w.state.entries[v.state.next_file_id].fs_handle is None),
        (c.create_options & FILE_DIRECTORY_FILE != 0 && stat is Ok && !stat->Ok_0.is_dir) ==> s
            == Step::Done(
            Some(Reply::Create { status: UNSUCCESSFUL, file_id: 0, information: INFORMATION_NONE }),
        ),
        (c.create_options & FILE_DIRECTORY_FILE != 0 && stat == Err::<FsEntry, FsError>(
            FsError::NotFound,
        ) && c.create_disposition == FILE_OPEN) ==> s == Step::Done(
            Some(Reply::Create { status: NO_SUCH_FILE, file_id: 0, information: INFORMATION_NONE }),
        ),
        (c.create_options & FILE_DIRECTORY_FILE != 0 && stat == Err::<FsEntry, FsError>(
            FsError::NotFound,
        ) && c.create_disposition != FILE_OPEN) ==> (s matches Step::Next(_, FsOp::Mkdir { path })
            && path == c.path),
        (c.create_options & FILE_DIRECTORY_FILE == 0 && c.create_options & FILE_NON_DIRECTORY_FILE
            != 0 && stat is Ok && stat->Ok_0.is_dir) ==> s == Step::Done(
            Some(
                Reply::Create { status: FILE_IS_A_DIRECTORY, file_id: 0, information: INFORMATION_NONE },
            ),
        ),
        (c.create_options & FILE_DIRECTORY_FILE == 0 && stat == Err::<FsEntry, FsError>(
            FsError::NotFound,
        )) ==> (s matches Step::Next(_, FsOp::OpenFile { path, .. }) && path == c.path),
{
}

} // verus!
