//! Walking a directory tree to total its size and file count.
//!
//! The walk alternates reading directories, which the host does, with
//! decisions, which [`DirScan`] makes: which entries count, and which
//! subdirectories to enter next. Every entry is checked against the root
//! before it counts or is entered, so a link swapped in to point elsewhere
//! is neither measured nor followed.

use vstd::prelude::*;

use crate::text::chars_of;

verus! {

/// Aggregate byte size and file count of a directory tree.
#[derive(Debug, Clone, Copy, PartialEq, Eq, Structural)]
pub struct ScanTotals {
    pub size_bytes: u64,
    pub file_count: u64,
}

/// One entry of a directory listing, as the host read it.
#[derive(Debug, Clone)]
pub struct ListedEntry {
    /// The entry's own name within its directory.
    pub name: String,
    /// The directory's path joined with the name.
    pub path: String,
    /// The path with every link resolved (the path itself when it cannot be resolved).
    pub resolved: String,
    pub is_dir: bool,
    /// A file's length; for a directory, the total the host measured of it.
    pub size: u64,
}

/// `p` is `root` or lies below it, compared component-wise on the text of
/// the paths (`root` written without a trailing separator).
pub open spec fn within(p: Seq<char>, root: Seq<char>) -> bool {
    p == root || (root.len() < p.len() && p.subrange(0, root.len() as int) == root && p[root.len()
        as int] == '/')
}

/// Whether `p` is `root` or lies below it.
pub fn path_within(p: &str, root: &str) -> (r: bool)
    ensures
        r == within(p@, root@),
{
    let pv = chars_of(p);
    let rv = chars_of(root);
    let n = pv.len();
    if rv.len() > n {
        return false;
    }
    let mut i: usize = 0;
    while i < rv.len()
        invariant
            pv@ == p@,
            rv@ == root@,
            n == pv@.len(),
            rv@.len() <= n,
            i <= rv@.len(),
            pv@.subrange(0, i as int) == rv@.subrange(0, i as int),
        decreases rv@.len() - i,
    {
        if pv[i] != rv[i] {
            assert(p@.subrange(0, root@.len() as int)[i as int] != root@[i as int]);
            return false;
        }
        assert(pv@.subrange(0, i + 1) =~= rv@.subrange(0, i + 1));
        i = i + 1;
    }
    assert(rv@.subrange(0, i as int) =~= rv@);
    if rv.len() == n {
        assert(pv@ =~= pv@.subrange(0, n as int));
        true
    } else {
        pv[rv.len()] == '/'
    }
}

/// An entry that a scan rooted at `root` counts as a file.
pub open spec fn counts_as_file(e: ListedEntry, root: Seq<char>) -> bool {
    within(e.resolved@, root) && !e.is_dir
}

/// An entry that a scan rooted at `root` enters.
pub open spec fn enters(e: ListedEntry, root: Seq<char>) -> bool {
    within(e.resolved@, root) && e.is_dir
}

/// Bytes of the files among `es` that count under `root`.
pub open spec fn file_bytes(es: Seq<ListedEntry>, root: Seq<char>) -> nat
    decreases es.len(),
{
    if es.len() == 0 {
        0
    } else {
        file_bytes(es.drop_last(), root) + if counts_as_file(es.last(), root) {
            es.last().size as nat
        } else {
            0
        }
    }
}

/// Number of the files among `es` that count under `root`.
pub open spec fn file_number(es: Seq<ListedEntry>, root: Seq<char>) -> nat
    decreases es.len(),
{
    if es.len() == 0 {
        0
    } else {
        file_number(es.drop_last(), root) + if counts_as_file(es.last(), root) {
            1nat
        } else {
            0
        }
    }
}

/// Resolved paths of the subdirectories among `es` that a scan under `root` enters, in order.
pub open spec fn subdirs(es: Seq<ListedEntry>, root: Seq<char>) -> Seq<Seq<char>>
    decreases es.len(),
{
    if es.len() == 0 {
        seq![]
    } else if enters(es.last(), root) {
        subdirs(es.drop_last(), root).push(es.last().resolved@)
    } else {
        subdirs(es.drop_last(), root)
    }
}

/// A sum held at the largest `u64`.
pub open spec fn saturated(n: int) -> nat {
    if n > u64::MAX {
        u64::MAX as nat
    } else {
        n as nat
    }
}

/// The state of one walk: the root it may not leave, the directories still
/// to read, and the totals so far.
pub struct DirScan {
    root: String,
    pending: Vec<String>,
    totals: ScanTotals,
}

impl DirScan {
    pub closed spec fn root_view(&self) -> Seq<char> {
        self.root@
    }

    /// Directories still to read; the last is read next.
    pub closed spec fn pending_view(&self) -> Seq<Seq<char>> {
        self.pending@.map_values(|s: String| s@)
    }

    pub closed spec fn totals_view(&self) -> ScanTotals {
        self.totals
    }

    /// A walk of the tree under `root` (its resolved path), which starts
    /// with the root itself and nothing counted.
    pub fn new(root: String) -> (r: DirScan)
        ensures
            r.root_view() == root@,
            r.pending_view() == seq![root@],
            r.totals_view() == (ScanTotals { size_bytes: 0, file_count: 0 }),
    {
        let first = root.clone();
        let mut pending: Vec<String> = Vec::new();
        pending.push(first);
        let r = DirScan { root, pending, totals: ScanTotals { size_bytes: 0, file_count: 0 } };
        assert(r.pending_view() =~= seq![r.root@]);
        r
    }

    /// A walk that may not leave `root` and starts at `start`, which must lie
    /// inside it: a start outside the root gives a walk with nothing to read.
    pub fn below(root: String, start: String) -> (r: DirScan)
        ensures
            r.root_view() == root@,
            within(start@, root@) ==> r.pending_view() == seq![start@],
            !within(start@, root@) ==> r.pending_view().len() == 0,
            r.totals_view() == (ScanTotals { size_bytes: 0, file_count: 0 }),
    {
        let mut pending: Vec<String> = Vec::new();
        let inside = path_within(start.as_str(), root.as_str());
        let ghost start_view = start@;
        if inside {
            pending.push(start);
        }
        let r = DirScan { root, pending, totals: ScanTotals { size_bytes: 0, file_count: 0 } };
        if inside {
            assert(r.pending_view() =~= seq![start_view]);
        }
        r
    }

    /// The next directory to read, or `None` when the walk is over.
    pub fn next_dir(&mut self) -> (r: Option<String>)
        ensures
            final(self).root_view() == old(self).root_view(),
            final(self).totals_view() == old(self).totals_view(),
            old(self).pending_view().len() == 0 ==> r is None && final(self).pending_view()
                == old(self).pending_view(),
            old(self).pending_view().len() > 0 ==> (r matches Some(d) && d@ == old(
                self,
            ).pending_view().last() && final(self).pending_view() == old(
                self,
            ).pending_view().drop_last()),
    {
        let r = self.pending.pop();
        proof {
            if old(self).pending@.len() > 0 {
                assert(self.pending_view() =~= old(self).pending_view().drop_last());
            }
        }
        r
    }

    /// Takes in the listing of a directory that was read: files under the
    /// root are counted, subdirectories under the root are queued, and
    /// anything that resolves outside the root is passed over. An unreadable
    /// directory is taken in as an empty listing.
    pub fn absorb(&mut self, entries: &Vec<ListedEntry>)
        ensures
            final(self).root_view() == old(self).root_view(),
            final(self).totals_view().size_bytes == saturated(
                old(self).totals_view().size_bytes + file_bytes(entries@, old(self).root_view()),
            ),
            final(self).totals_view().file_count == saturated(
                old(self).totals_view().file_count + file_number(entries@, old(self).root_view()),
            ),
            final(self).pending_view() == old(self).pending_view() + subdirs(
                entries@,
                old(self).root_view(),
            ),
    {
        let ghost root = self.root@;
        let ghost size0 = self.totals.size_bytes as int;
        let ghost count0 = self.totals.file_count as int;
        let ghost pending0 = self.pending_view();
        let mut i: usize = 0;
        while i < entries.len()
            invariant
                self.root@ == root,
                root == old(self).root_view(),
                size0 == old(self).totals_view().size_bytes,
                count0 == old(self).totals_view().file_count,
                pending0 == old(self).pending_view(),
                i <= entries@.len(),
                self.totals.size_bytes == saturated(
                    size0 + file_bytes(entries@.subrange(0, i as int), root),
                ),
                self.totals.file_count == saturated(
                    count0 + file_number(entries@.subrange(0, i as int), root),
                ),
                self.pending_view() == pending0 + subdirs(entries@.subrange(0, i as int), root),
            decreases entries@.len() - i,
        {
            let e = &entries[i];
            let ghost prefix = entries@.subrange(0, i as int);
            let ghost next = entries@.subrange(0, i + 1);
            assert(next.drop_last() =~= prefix);
            assert(next.last() == entries@[i as int]);
            if path_within(e.resolved.as_str(), self.root.as_str()) {
                if e.is_dir {
                    let ghost before = self.pending@;
                    let d = e.resolved.clone();
                    self.pending.push(d);
                    assert(self.pending@ == before.push(d));
                    assert(self.pending_view() =~= before.map_values(|s: String| s@).push(d@));
                    assert(subdirs(next, root) == subdirs(prefix, root).push(e.resolved@));
                    assert(self.pending_view() =~= pending0 + subdirs(next, root));
                } else {
                    self.totals.size_bytes = self.totals.size_bytes.saturating_add(e.size);
                    self.totals.file_count = self.totals.file_count.saturating_add(1);
                }
            }
            i = i + 1;
        }
        assert(entries@.subrange(0, entries@.len() as int) =~= entries@);
    }

    /// What the walk has counted so far.
    pub fn totals(&self) -> (r: ScanTotals)
        ensures
            r == self.totals_view(),
    {
        self.totals
    }
}

} // verus!
