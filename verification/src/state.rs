//! The open RDPDR `file_id` table of a drive-redirection session, with the
//! per-directory listing cursors that back `QueryDirectory`.

use std::collections::HashMap;

use vstd::prelude::*;

use vstd::std_specs::iter::IteratorSpec;

use crate::entry::FsEntry;

verus! {

broadcast use vstd::std_specs::hash::group_hash_axioms;

/// Book-keeping for one open RDPDR drive `file_id`.
#[derive(Debug, Clone, PartialEq, Eq)]
pub struct OpenEntry {
    /// The path this handle was opened against.
    pub path: String,
    /// The filesystem handle behind this entry; directories never have one
    /// (they are listed, not opened).
    pub fs_handle: Option<u32>,
    pub is_dir: bool,
    /// Cached listing backing `QueryDirectory`, populated on the first query.
    pub dir_listing: Option<Vec<FsEntry>>,
    /// Index into `dir_listing` of the next entry [`DriveState::next_dir_entry`] returns.
    pub dir_cursor: usize,
}

/// Maps RDPDR `file_id` to [`OpenEntry`] for the lifetime of a drive
/// redirection session, and allocates new `file_id`s.
///
/// Ids start at 1 and count up, wrapping past `u32::MAX` back to 1 (0 is never
/// handed out). A closed id is not handed out again until the counter has
/// wrapped all the way round.
#[derive(Debug)]
pub struct DriveState {
    entries: HashMap<u32, OpenEntry>,
    next_file_id: u32,
}

/// The abstract state of a [`DriveState`]: the open entries by `file_id`, and
/// the id the next open will receive.
pub struct DriveStateView {
    pub entries: Map<u32, OpenEntry>,
    pub next_file_id: u32,
}

impl View for DriveState {
    type V = DriveStateView;

    closed spec fn view(&self) -> DriveStateView {
        DriveStateView { entries: self.entries@, next_file_id: self.next_file_id }
    }
}

/// The id handed out after `id`: the next integer, wrapping from `u32::MAX`
/// to 1.
pub open spec fn next_id_after(id: u32) -> u32 {
    if id == u32::MAX {
        1
    } else {
        (id + 1) as u32
    }
}

/// A freshly opened entry: no listing yet, cursor at the start.
pub open spec fn fresh_entry(path: String, fs_handle: Option<u32>, is_dir: bool) -> OpenEntry {
    OpenEntry { path, fs_handle, is_dir, dir_listing: None, dir_cursor: 0 }
}

/// The filesystem handles of the entries at `ids`, in that order, skipping
/// entries without one.
pub open spec fn handles_of(m: Map<u32, OpenEntry>, ids: Seq<u32>) -> Seq<u32>
    decreases ids.len(),
{
    if ids.len() == 0 {
        Seq::empty()
    } else {
        let prev = handles_of(m, ids.drop_last());
        match m[ids.last()].fs_handle {
            Some(h) => prev.push(h),
            None => prev,
        }
    }
}

impl DriveStateView {
    /// The state's invariant: the counter is never 0 and no open id is 0.
    pub open spec fn wf(self) -> bool {
        &&& self.next_file_id != 0
        &&& !self.entries.contains_key(0)
    }
}

impl DriveState {
    /// An empty table whose first allocated id is 1.
    pub fn new() -> (s: Self)
        ensures
            s@.entries == Map::<u32, OpenEntry>::empty(),
            s@.next_file_id == 1,
            s@.wf(),
    {
        DriveState { entries: HashMap::new(), next_file_id: 1 }
    }

    /// Opens a new entry, allocating and returning its `file_id`.
    pub fn open(&mut self, path: String, fs_handle: Option<u32>, is_dir: bool) -> (file_id: u32)
        requires
            old(self)@.wf(),
        ensures
            final(self)@.wf(),
            file_id == old(self)@.next_file_id,
            file_id != 0,
            final(self)@.next_file_id == next_id_after(old(self)@.next_file_id),
            final(self)@.entries == old(self)@.entries.insert(
                file_id,
                fresh_entry(path, fs_handle, is_dir),
            ),
            table_step(old(self)@, TableOp::Open { path, fs_handle, is_dir, id: file_id }, final(self)@),
    {
        let file_id = self.allocate_file_id();
        self.entries.insert(
            file_id,
            OpenEntry { path, fs_handle, is_dir, dir_listing: None, dir_cursor: 0 },
        );
        file_id
    }

    /// The entry open under `file_id`, if any.
    pub fn get(&self, file_id: u32) -> (r: Option<&OpenEntry>)
        ensures
            match r {
                Some(e) => self@.entries.contains_key(file_id) && *e == self@.entries[file_id],
                None => !self@.entries.contains_key(file_id),
            },
    {
        self.entries.get(&file_id)
    }

    /// Removes and returns the entry for `file_id`, if it was open. The id is
    /// not handed out again (see the type's doc comment).
    pub fn close(&mut self, file_id: u32) -> (r: Option<OpenEntry>)
        requires
            old(self)@.wf(),
        ensures
            final(self)@.wf(),
            final(self)@.next_file_id == old(self)@.next_file_id,
            final(self)@.entries == old(self)@.entries.remove(file_id),
            match r {
                Some(e) => old(self)@.entries.contains_key(file_id) && e == old(
                    self,
                )@.entries[file_id],
                None => !old(self)@.entries.contains_key(file_id),
            },
            table_step(old(self)@, TableOp::Close { id: file_id }, final(self)@),
    {
        self.entries.remove(&file_id)
    }

    /// Points an open entry at a new path (after a rename). Returns `false`,
    /// changing nothing, if `file_id` isn't open.
    pub fn set_path(&mut self, file_id: u32, path: String) -> (found: bool)
        requires
            old(self)@.wf(),
        ensures
            final(self)@.wf(),
            final(self)@.next_file_id == old(self)@.next_file_id,
            found == old(self)@.entries.contains_key(file_id),
            found ==> final(self)@.entries == old(self)@.entries.insert(
                file_id,
                OpenEntry { path, ..old(self)@.entries[file_id] },
            ),
            !found ==> final(self)@.entries == old(self)@.entries,
            table_step(old(self)@, TableOp::Other, final(self)@),
    {
        match self.entries.remove(&file_id) {
            Some(entry) => {
                let OpenEntry { path: _, fs_handle, is_dir, dir_listing, dir_cursor } = entry;
                self.entries.insert(file_id, OpenEntry { path, fs_handle, is_dir, dir_listing, dir_cursor });
                true
            },
            None => false,
        }
    }

    /// Caches a directory listing against an open entry and resets its
    /// cursor, so the next [`Self::next_dir_entry`] starts from the beginning.
    /// Returns `false`, changing nothing, if `file_id` isn't open.
    pub fn set_dir_listing(&mut self, file_id: u32, listing: Vec<FsEntry>) -> (found: bool)
        requires
            old(self)@.wf(),
        ensures
            final(self)@.wf(),
            final(self)@.next_file_id == old(self)@.next_file_id,
            found == old(self)@.entries.contains_key(file_id),
            found ==> final(self)@.entries == old(self)@.entries.insert(
                file_id,
                OpenEntry {
                    dir_listing: Some(listing),
                    dir_cursor: 0,
                    ..old(self)@.entries[file_id]
                },
            ),
            !found ==> final(self)@.entries == old(self)@.entries,
            table_step(old(self)@, TableOp::Other, final(self)@),
    {
        match self.entries.remove(&file_id) {
            Some(entry) => {
                let OpenEntry { path, fs_handle, is_dir, dir_listing: _, dir_cursor: _ } = entry;
                self.entries.insert(
                    file_id,
                    OpenEntry { path, fs_handle, is_dir, dir_listing: Some(listing), dir_cursor: 0 },
                );
                true
            },
            None => false,
        }
    }

    /// Pops the next cached directory entry for `file_id`, advancing the
    /// cursor. `None`, changing nothing, once the listing is exhausted, or if
    /// there is no cached listing or no open entry for `file_id`.
    pub fn next_dir_entry(&mut self, file_id: u32) -> (r: Option<FsEntry>)
        requires
            old(self)@.wf(),
        ensures
            final(self)@.wf(),
            final(self)@.next_file_id == old(self)@.next_file_id,
            ({
                let m = old(self)@.entries;
                if m.contains_key(file_id) && m[file_id].dir_listing is Some
                    && m[file_id].dir_cursor < m[file_id].dir_listing->0@.len() {
                    &&& r == Some(m[file_id].dir_listing->0@[m[file_id].dir_cursor as int])
                    &&& final(self)@.entries == m.insert(
                        file_id,
                        OpenEntry { dir_cursor: (m[file_id].dir_cursor + 1) as usize, ..m[file_id] },
                    )
                } else {
                    &&& r is None
                    &&& final(self)@.entries == m
                }
            }),
            table_step(old(self)@, TableOp::Other, final(self)@),
    {
        let ghost m = self.entries@;
        let mut entry = match self.entries.remove(&file_id) {
            Some(entry) => entry,
            None => {
                assert(self.entries@ =~= m);
                return None;
            },
        };
        let item = match &entry.dir_listing {
            Some(listing) => {
                if entry.dir_cursor < listing.len() {
                    Some(listing[entry.dir_cursor].duplicate())
                } else {
                    None
                }
            },
            None => None,
        };
        if item.is_some() {
            entry.dir_cursor = entry.dir_cursor + 1;
        }
        self.entries.insert(file_id, entry);
        proof {
            if item is None {
                assert(self.entries@ =~= m);
            }
        }
        item
    }

    /// The filesystem handles of every open entry (in the table's own,
    /// unspecified, order); directories contribute none.
    pub fn open_fs_handles(&self) -> (handles: Vec<u32>)
        ensures
            exists|ids: Seq<u32>|
                {
                    &&& ids.no_duplicates()
                    &&& ids.to_set() == self@.entries.dom()
                    &&& handles@ == handles_of(self@.entries, ids)
                },
    {
        let mut handles: Vec<u32> = Vec::new();
        let ghost m = self.entries@;
        let ghost mut seen: Seq<u32> = Seq::empty();
        let ghost all = vstd::std_specs::hash::spec_keys_iter(&self.entries).remaining().unref();
        for id in it: self.entries.keys()
            invariant
                m == self.entries@,
                it.seq().unref() == all,
                all.to_set() == m.dom(),
                all.no_duplicates(),
                seen.len() == it.index(),
                seen == it.seq().take(it.index()).unref(),
                handles@ == handles_of(m, seen),
        {
            proof {
                assert(it.seq()[it.index()] == id);
            }
            let ghost old_seen = seen;
            match self.entries.get(id) {
                Some(entry) => {
                    match entry.fs_handle {
                        Some(h) => handles.push(h),
                        None => {},
                    }
                },
                None => {},
            }
            proof {
                seen = seen.push(*id);
                assert(seen.drop_last() =~= old_seen);
                assert(seen =~= it.seq().take(it.index() + 1).unref());
            }
        }
        assert(seen =~= all);
        handles
    }

    fn allocate_file_id(&mut self) -> (id: u32)
        requires
            old(self)@.wf(),
        ensures
            id == old(self)@.next_file_id,
            final(self).next_file_id == next_id_after(id),
            final(self).entries == old(self).entries,
            final(self)@.wf(),
    {
        let id = self.next_file_id;
        self.next_file_id = next_id(id);
        id
    }
}

/// The id handed out after `id`: the next integer, wrapping from `u32::MAX`
/// to 1, so 0 is never handed out. Filesystem handle counters follow the
/// same scheme.
pub fn next_id(id: u32) -> (r: u32)
    ensures
        r == next_id_after(id),
        r != 0,
{
    let r = id.wrapping_add(1);
    if r == 0 {
        1
    } else {
        r
    }
}

} // verus!

verus! {

/// The id handed out `k` opens after the one that handed out `start`.
pub open spec fn nth_id(start: u32, k: nat) -> u32
    decreases k,
{
    if k == 0 {
        start
    } else {
        next_id_after(nth_id(start, (k - 1) as nat))
    }
}

/// Ids count round the nonzero `u32`s: the `k`-th id after `start` is
/// `start + k`, reduced into `1..=u32::MAX`.
proof fn lemma_nth_id_offset(start: u32, k: nat)
    requires
        start != 0,
    ensures
        nth_id(start, k) - 1 == (start - 1 + k) % (u32::MAX as int),
    decreases k,
{
    let m = u32::MAX as int;
    if k == 0 {
        vstd::arithmetic::div_mod::lemma_small_mod((start - 1) as nat, m as nat);
    } else {
        lemma_nth_id_offset(start, (k - 1) as nat);
        let x = start - 1 + (k - 1);
        vstd::arithmetic::div_mod::lemma_add_mod_noop(x, 1, m);
        vstd::arithmetic::div_mod::lemma_small_mod(1, m as nat);
        vstd::arithmetic::div_mod::lemma_mod_pos_bound(x, m);
        if x % m == m - 1 {
            vstd::arithmetic::div_mod::lemma_mod_self_0(m);
        } else {
            vstd::arithmetic::div_mod::lemma_small_mod((x % m + 1) as nat, m as nat);
        }
    }
}

/// Successive opens never hand out the same id twice until every nonzero
/// `u32` has been handed out once: the `i`-th and `j`-th ids after `start`
/// differ whenever `i < j < u32::MAX`, whatever was closed in between.
pub proof fn lemma_ids_distinct_until_wrap(start: u32, i: nat, j: nat)
    requires
        start != 0,
        i < j < u32::MAX,
    ensures
        nth_id(start, i) != nth_id(start, j),
        nth_id(start, i) != 0,
{
    let m = u32::MAX as int;
    lemma_nth_id_offset(start, i);
    lemma_nth_id_offset(start, j);
    vstd::arithmetic::div_mod::lemma_mod_pos_bound(start - 1 + i, m);
    if nth_id(start, i) == nth_id(start, j) {
        vstd::arithmetic::div_mod::lemma_mod_equivalence(start - 1 + j, start - 1 + i, m);
        assert((start - 1 + j) - (start - 1 + i) == j - i);
        vstd::arithmetic::div_mod::lemma_mod_is_zero((j - i) as nat, m as nat);
    }
}

} // verus!

verus! {

/// Until the counter wraps, every id an open hands out is greater than every
/// id handed out before it: from `start`, the `k`-th id is `start + k`, so
/// the `i`-th is below the `j`-th for `i < j` as long as `start + j` still
/// fits in a `u32`.
pub proof fn lemma_ids_increase_until_wrap(start: u32, i: nat, j: nat)
    requires
        start != 0,
        i < j,
        start + j <= u32::MAX,
    ensures
        nth_id(start, i) == start + i,
        nth_id(start, j) == start + j,
        nth_id(start, i) < nth_id(start, j),
{
    let m = u32::MAX as int;
    lemma_nth_id_offset(start, i);
    lemma_nth_id_offset(start, j);
    vstd::arithmetic::div_mod::lemma_small_mod((start - 1 + i) as nat, m as nat);
    vstd::arithmetic::div_mod::lemma_small_mod((start - 1 + j) as nat, m as nat);
}

} // verus!

verus! {

/// One call on a [`DriveState`], as far as the id counter is concerned: an
/// open with its arguments and the id it returned, a close, or any call that
/// neither opens nor closes (`get`, `set_path`, `set_dir_listing`,
/// `next_dir_entry`, `open_fs_handles`).
pub enum TableOp {
    Open { path: String, fs_handle: Option<u32>, is_dir: bool, id: u32 },
    Close { id: u32 },
    Other,
}

/// What one call does to the table, as its contract states it.
pub open spec fn table_step(v: DriveStateView, op: TableOp, w: DriveStateView) -> bool {
    match op {
        TableOp::Open { path, fs_handle, is_dir, id } => {
            &&& id == v.next_file_id
            &&& w.next_file_id == next_id_after(v.next_file_id)
            &&& w.entries == v.entries.insert(id, fresh_entry(path, fs_handle, is_dir))
        },
        TableOp::Close { id } => {
            &&& w.next_file_id == v.next_file_id
            &&& w.entries == v.entries.remove(id)
        },
        TableOp::Other => w.next_file_id == v.next_file_id && w.entries.dom() == v.entries.dom(),
    }
}

/// A run of calls from a fresh table: `ops[k]` takes it from `vs[k]` to
/// `vs[k + 1]`.
pub open spec fn table_trace(vs: Seq<DriveStateView>, ops: Seq<TableOp>) -> bool {
    &&& vs.len() == ops.len() + 1
    &&& vs[0].entries.dom().is_empty()
    &&& vs[0].next_file_id == 1
    &&& forall|k: int| #![trigger ops[k]] 0 <= k < ops.len() ==> table_step(vs[k], ops[k], vs[k + 1])
}

/// How many of the first `n` calls were opens.
pub open spec fn opens_before(ops: Seq<TableOp>, n: int) -> nat
    decreases n,
{
    if n <= 0 {
        0
    } else if ops[n - 1] is Open {
        opens_before(ops, n - 1) + 1
    } else {
        opens_before(ops, n - 1)
    }
}

/// Along a run from a fresh table, before the counter wraps, the counter
/// stands at one past the number of opens so far and every open id lies
/// below it.
proof fn lemma_table_counter(vs: Seq<DriveStateView>, ops: Seq<TableOp>, n: int)
    requires
        table_trace(vs, ops),
        0 <= n <= ops.len(),
        opens_before(ops, n) < u32::MAX,
    ensures
        vs[n].next_file_id == 1 + opens_before(ops, n),
        forall|id: u32| #[trigger] vs[n].entries.contains_key(id) ==> 1 <= id < vs[n].next_file_id,
    decreases n,
{
    if n > 0 {
        let k = n - 1;
        lemma_table_counter(vs, ops, k);
        assert(table_step(vs[k], ops[k], vs[k + 1]));
        match ops[k] {
            TableOp::Open { .. } => {},
            TableOp::Close { .. } => {},
            TableOp::Other => {
                assert forall|id: u32| #[trigger] vs[n].entries.contains_key(id) implies 1 <= id
                    < vs[n].next_file_id by {
                    assert(vs[n].entries.dom().contains(id));
                    assert(vs[k].entries.dom().contains(id));
                }
            },
        }
    }
}

/// A fresh table never hands out an id twice until its counter wraps: along
/// any run of calls from `DriveState::new()` with fewer than `u32::MAX` opens,
/// every open returns an id that is not 0, greater than every id returned by
/// an earlier open (whether or not that one was closed since), and not the
/// id of any entry still open.
pub proof fn lemma_ids_never_reused(vs: Seq<DriveStateView>, ops: Seq<TableOp>, i: int, j: int)
    requires
        table_trace(vs, ops),
        0 <= i < j < ops.len(),
        ops[i] is Open,
        ops[j] is Open,
        opens_before(ops, j) + 1 < u32::MAX,
    ensures
        ops[j]->Open_id != 0,
        ops[i]->Open_id < ops[j]->Open_id,
        !vs[j].entries.contains_key(ops[j]->Open_id),
{
    lemma_opens_monotone(ops, i + 1, j);
    lemma_table_counter(vs, ops, i);
    lemma_table_counter(vs, ops, j);
    assert(table_step(vs[i], ops[i], vs[i + 1]));
    assert(table_step(vs[j], ops[j], vs[j + 1]));
    assert(opens_before(ops, i + 1) == opens_before(ops, i) + 1);
}

/// The open count only grows along a run.
proof fn lemma_opens_monotone(ops: Seq<TableOp>, a: int, b: int)
    requires
        0 <= a <= b,
    ensures
        opens_before(ops, a) <= opens_before(ops, b),
    decreases b - a,
{
    if a < b {
        lemma_opens_monotone(ops, a, b - 1);
    }
}

} // verus!
