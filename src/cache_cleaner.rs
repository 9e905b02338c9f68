//! Analysing and emptying the cache.
//!
//! The host reads directories, stops the daemon and removes entries; the
//! functions here decide what may be removed, in which order the steps go,
//! what each step writes to the audit trail, and what the caller is told.

use vstd::prelude::*;

use crate::cache_monitor::{format_size, size_text};
use crate::clock::current_timestamp;
use crate::dir_scan::{path_within, saturated, within, ListedEntry};
use crate::path_guard::{cache_folder_name, folder_name, path_is_safe, verify_safe_path, ResolvedPath};
use crate::text::{contains_str, decimal, decimal_string, occurs_in};

verus! {

/// Why an operation on the cache did not go through.
#[derive(Debug, Clone)]
pub enum CleanError {
    SafetyViolation(String),
    PermissionDenied(String),
    DaemonKillFailed(String),
    CacheNotFound(String),
    RemovalFailed(String),
    Unknown(String),
}

/// The text shown for an error.
pub open spec fn error_text(e: CleanError) -> Seq<char> {
    match e {
        CleanError::SafetyViolation(m) => "SAFETY VIOLATION: "@ + m@,
        CleanError::PermissionDenied(m) => "Permission denied: "@ + m@,
        CleanError::DaemonKillFailed(m) => "Failed to stop daemon: "@ + m@,
        CleanError::CacheNotFound(m) => "Cache not found: "@ + m@,
        CleanError::RemovalFailed(m) => "Failed to remove cache: "@ + m@,
        CleanError::Unknown(m) => "Unknown error: "@ + m@,
    }
}

impl CleanError {
    /// The text shown for this error.
    pub fn message(&self) -> (r: String)
        ensures
            r@ == error_text(*self),
    {
        let (prefix, m) = match self {
            CleanError::SafetyViolation(m) => ("SAFETY VIOLATION: ", m),
            CleanError::PermissionDenied(m) => ("Permission denied: ", m),
            CleanError::DaemonKillFailed(m) => ("Failed to stop daemon: ", m),
            CleanError::CacheNotFound(m) => ("Cache not found: ", m),
            CleanError::RemovalFailed(m) => ("Failed to remove cache: ", m),
            CleanError::Unknown(m) => ("Unknown error: ", m),
        };
        let mut r = String::from_str(prefix);
        r.append(m.as_str());
        r
    }
}

/// One direct child of the cache directory.
#[derive(Debug, Clone)]
pub struct DeletionItem {
    /// The child's name within the cache directory.
    pub path: String,
    pub size: u64,
    pub size_display: String,
    pub is_directory: bool,
}

/// What one clean did or, for a dry run, would do.
#[derive(Debug, Clone)]
pub struct CleanResult {
    pub success: bool,
    pub bytes_freed: u64,
    pub bytes_freed_display: String,
    pub files_removed: u64,
    /// Entries whose removal was attempted and failed.
    pub items_failed: u64,
    pub timestamp: u64,
    pub message: String,
    pub requires_password: bool,
    pub was_dry_run: bool,
    pub items_found: Vec<DeletionItem>,
}

/// The listing of the cache directory, as the host read it.
#[derive(Debug, Clone)]
pub enum Listing {
    /// The directory does not exist.
    Missing,
    /// The directory exists but could not be read; the reason.
    Unreadable(String),
    Entries(Vec<ListedEntry>),
}

/// The entries of a listing that resolve inside `root`, in order.
pub open spec fn kept(es: Seq<ListedEntry>, root: Seq<char>) -> Seq<ListedEntry>
    decreases es.len(),
{
    if es.len() == 0 {
        seq![]
    } else if within(es.last().resolved@, root) {
        kept(es.drop_last(), root).push(es.last())
    } else {
        kept(es.drop_last(), root)
    }
}

/// `item` describes the listed entry `e`.
pub open spec fn describes(item: DeletionItem, e: ListedEntry) -> bool {
    &&& item.path@ == e.name@
    &&& item.size == e.size
    &&& item.size_display@ == size_text(e.size as nat)
    &&& item.is_directory == e.is_dir
}

/// `items` describe, one for one and in order, the entries of `es` inside `root`.
pub open spec fn lists(items: Seq<DeletionItem>, es: Seq<ListedEntry>, root: Seq<char>) -> bool {
    &&& items.len() == kept(es, root).len()
    &&& forall|i: int| 0 <= i < items.len() ==> describes(#[trigger] items[i], kept(es, root)[i])
}

/// The sum of the sizes of `items`.
pub open spec fn item_bytes(items: Seq<DeletionItem>) -> nat
    decreases items.len(),
{
    if items.len() == 0 {
        0
    } else {
        item_bytes(items.drop_last()) + items.last().size as nat
    }
}

/// `old` is where `new` starts: an audit trail only grows.
pub open spec fn extends(new: Seq<String>, old: Seq<String>) -> bool {
    old.len() <= new.len() && new.subrange(0, old.len() as int) == old
}

/// The line written when an entry that escapes the cache is passed over.
pub open spec fn refusal_line(path: Seq<char>) -> Seq<char> {
    "SAFETY: Refused to delete path outside cache: "@ + path
}

/// The line written when an entry's path has lost the cache folder's name.
pub open spec fn missing_folder_line(path: Seq<char>) -> Seq<char> {
    "SAFETY: Refused to delete - path missing expected folder: "@ + path
}

/// The message of a dry run that found `count` items of `bytes` in all.
pub open spec fn dry_run_message(bytes: nat, count: nat) -> Seq<char> {
    "Dry run: would delete "@ + size_text(bytes) + " ("@ + decimal(count) + " items)"@
}

/// The message of a clean that removed `count` items of `bytes` in all.
pub open spec fn cleaned_message(bytes: nat, count: nat) -> Seq<char> {
    "Cleaned "@ + size_text(bytes) + " ("@ + decimal(count) + " items)"@
}

/// The message when there is no cache directory.
pub open spec fn nothing_to_clean_message() -> Seq<char> {
    "Cache directory does not exist - nothing to clean"@
}

fn log_line(log: &mut Vec<String>, line: String)
    ensures
        final(log)@ == old(log)@.push(line),
{
    log.push(line);
}

proof fn lemma_extends_push(a: Seq<String>, b: Seq<String>, x: String)
    requires
        extends(b, a),
    ensures
        extends(b.push(x), a),
{
    assert(b.push(x).subrange(0, a.len() as int) =~= b.subrange(0, a.len() as int));
}

proof fn lemma_extends_trans(a: Seq<String>, b: Seq<String>, c: Seq<String>)
    requires
        extends(b, a),
        extends(c, b),
    ensures
        extends(c, a),
{
    assert(c.subrange(0, a.len() as int) =~= c.subrange(0, b.len() as int).subrange(
        0,
        a.len() as int,
    ));
}

proof fn lemma_extends_refl(a: Seq<String>)
    ensures
        extends(a, a),
{
    assert(a.subrange(0, a.len() as int) =~= a);
}

/// The sum of the sizes of `items`, held at the largest `u64`.
pub fn total_size(items: &Vec<DeletionItem>) -> (r: u64)
    ensures
        r as nat == saturated(item_bytes(items@) as int),
{
    let mut total: u64 = 0;
    let mut i: usize = 0;
    while i < items.len()
        invariant
            i <= items@.len(),
            total as nat == saturated(item_bytes(items@.subrange(0, i as int)) as int),
        decreases items@.len() - i,
    {
        assert(items@.subrange(0, i + 1).drop_last() =~= items@.subrange(0, i as int));
        total = total.saturating_add(items[i].size);
        i = i + 1;
    }
    assert(items@.subrange(0, items@.len() as int) =~= items@);
    total
}

fn item_for(e: &ListedEntry) -> (r: DeletionItem)
    ensures
        describes(r, *e),
{
    DeletionItem {
        path: e.name.clone(),
        size: e.size,
        size_display: format_size(e.size),
        is_directory: e.is_dir,
    }
}

/// The items that the entries inside `root` make, each entry outside it
/// passed over with a line in the trail.
fn items_within(es: &Vec<ListedEntry>, root: &str, log: &mut Vec<String>) -> (r: Vec<
    DeletionItem,
>)
    ensures
        lists(r@, es@, root@),
        extends(final(log)@, old(log)@),
{
    let mut items: Vec<DeletionItem> = Vec::new();
    let mut i: usize = 0;
    proof {
        lemma_extends_refl(log@);
    }
    while i < es.len()
        invariant
            i <= es@.len(),
            lists(items@, es@.subrange(0, i as int), root@),
            extends(log@, old(log)@),
        decreases es@.len() - i,
    {
        let e = &es[i];
        let ghost prefix = es@.subrange(0, i as int);
        let ghost next = es@.subrange(0, i + 1);
        assert(next.drop_last() =~= prefix);
        assert(next.last() == es@[i as int]);
        if path_within(e.resolved.as_str(), root) {
            let ghost before = items@;
            items.push(item_for(e));
            assert(kept(next, root@) == kept(prefix, root@).push(*e));
            assert forall|j: int| 0 <= j < items@.len() implies describes(
                #[trigger] items@[j],
                kept(next, root@)[j],
            ) by {
                if j < before.len() {
                    assert(items@[j] == before[j]);
                }
            }
        } else {
            let mut line = String::from_str("SAFETY: Skipped suspicious path: ");
            line.append(e.path.as_str());
            let ghost l0 = log@;
            log_line(log, line);
            proof {
                lemma_extends_push(old(log)@, l0, line);
            }
        }
        i = i + 1;
    }
    assert(es@.subrange(0, es@.len() as int) =~= es@);
    items
}

/// What would be deleted: the direct children of the cache directory that
/// resolve inside it, after the guard has passed the target.
pub fn analyze_cache(
    target: &ResolvedPath,
    expected: &ResolvedPath,
    listing: &Listing,
    log: &mut Vec<String>,
) -> (r: Result<Vec<DeletionItem>, CleanError>)
    ensures
        !path_is_safe(*target, *expected) ==> (r matches Err(e) && e is SafetyViolation),
        path_is_safe(*target, *expected) ==> match *listing {
            Listing::Missing => r matches Ok(items) && items@.len() == 0,
            Listing::Unreadable(_) => r matches Err(e) && e is RemovalFailed,
            Listing::Entries(es) => r matches Ok(items) && lists(
                items@,
                es@,
                target.canonical@,
            ),
        },
        extends(final(log)@, old(log)@),
{
    proof {
        lemma_extends_refl(log@);
    }
    if let Err(e) = verify_safe_path(target, expected) {
        return Err(e);
    }
    match listing {
        Listing::Missing => Ok(Vec::new()),
        Listing::Unreadable(why) => {
            let mut msg = String::from_str("Cannot read directory: ");
            msg.append(why.as_str());
            Err(CleanError::RemovalFailed(msg))
        },
        Listing::Entries(es) => Ok(items_within(es, target.canonical.as_str(), log)),
    }
}

/// The message of a dry run or a clean, over its total and count.
fn outcome_message(dry_run: bool, bytes: u64, count: u64) -> (r: String)
    ensures
        dry_run ==> r@ == dry_run_message(bytes as nat, count as nat),
        !dry_run ==> r@ == cleaned_message(bytes as nat, count as nat),
{
    let mut r = if dry_run {
        String::from_str("Dry run: would delete ")
    } else {
        String::from_str("Cleaned ")
    };
    let size = format_size(bytes);
    r.append(size.as_str());
    r.append(" (");
    let n = decimal_string(count);
    r.append(n.as_str());
    r.append(" items)");
    r
}

/// A real clean under way: the inventory taken before deletion, and what
/// has been removed so far.
pub struct CleanRun {
    root: String,
    items: Vec<DeletionItem>,
    bytes_freed: u64,
    files_removed: u64,
    items_failed: u64,
}

impl CleanRun {
    /// The canonical cache directory that nothing may leave.
    pub closed spec fn root_view(&self) -> Seq<char> {
        self.root@
    }

    /// The inventory taken before deletion.
    pub closed spec fn items_view(&self) -> Seq<DeletionItem> {
        self.items@
    }

    pub closed spec fn freed(&self) -> nat {
        self.bytes_freed as nat
    }

    pub closed spec fn removed(&self) -> nat {
        self.files_removed as nat
    }

    pub closed spec fn failed(&self) -> nat {
        self.items_failed as nat
    }

    /// An entry that may be removed: it resolves inside the cache directory
    /// and its path holds the cache folder's name.
    pub open spec fn allows(&self, e: ListedEntry) -> bool {
        within(e.resolved@, self.root_view()) && occurs_in(folder_name(), e.path@)
    }

    /// A run that is done fails only when every removal it tried failed.
    pub open spec fn fails(&self) -> bool {
        self.removed() == 0 && self.failed() > 0
    }

    /// Checks an entry of the listing taken after the daemon was stopped. An
    /// entry that escapes the cache, or whose path has lost the folder name,
    /// is refused with a line in the trail and must not be removed.
    pub fn check_entry(&self, entry: &ListedEntry, log: &mut Vec<String>) -> (r: bool)
        ensures
            r == self.allows(*entry),
            r ==> final(log)@ == old(log)@,
            !within(entry.resolved@, self.root_view()) ==> final(log)@.len() == old(log)@.len()
                + 1 && final(log)@.last()@ == refusal_line(entry.path@),
            within(entry.resolved@, self.root_view()) && !r ==> final(log)@.len() == old(
                log,
            )@.len() + 1 && final(log)@.last()@ == missing_folder_line(entry.path@),
            extends(final(log)@, old(log)@),
    {
        proof {
            lemma_extends_refl(log@);
        }
        if !path_within(entry.resolved.as_str(), self.root.as_str()) {
            let mut line = String::from_str("SAFETY: Refused to delete path outside cache: ");
            line.append(entry.path.as_str());
            log_line(log, line);
            proof {
                lemma_extends_push(old(log)@, old(log)@, line);
            }
            return false;
        }
        if !contains_str(entry.path.as_str(), cache_folder_name()) {
            let mut line = String::from_str(
                "SAFETY: Refused to delete - path missing expected folder: ",
            );
            line.append(entry.path.as_str());
            log_line(log, line);
            proof {
                lemma_extends_push(old(log)@, old(log)@, line);
            }
            return false;
        }
        true
    }

    /// Takes in the outcome of removing an entry it allows (the reason, when
    /// it failed). Only a removal that succeeded adds to what was freed.
    pub fn record(&mut self, entry: &ListedEntry, outcome: Result<(), String>, log: &mut Vec<String>)
        requires
            old(self).allows(*entry),
        ensures
            final(self).root_view() == old(self).root_view(),
            final(self).items_view() == old(self).items_view(),
            outcome is Ok ==> final(self).freed() == saturated(old(self).freed() + entry.size)
                && final(self).removed() == saturated(old(self).removed() + 1int) && final(self).failed()
                == old(self).failed(),
            outcome is Err ==> final(self).freed() == old(self).freed() && final(self).removed()
                == old(self).removed() && final(self).failed() == saturated(old(self).failed() + 1int),
            final(log)@.len() == old(log)@.len() + 1,
            extends(final(log)@, old(log)@),
    {
        let mut line = match outcome {
            Ok(()) => {
                self.bytes_freed = self.bytes_freed.saturating_add(entry.size);
                self.files_removed = self.files_removed.saturating_add(1);
                let mut line = String::from_str("DELETED: ");
                line.append(entry.name.as_str());
                line.append(" (");
                let size = format_size(entry.size);
                line.append(size.as_str());
                if entry.is_dir {
                    line.append(", directory)");
                } else {
                    line.append(", file)");
                }
                line
            },
            Err(why) => {
                self.items_failed = self.items_failed.saturating_add(1);
                let mut line = String::from_str("FAILED to delete ");
                line.append(entry.path.as_str());
                line.append(": ");
                line.append(why.as_str());
                line
            },
        };
        log_line(log, line);
        proof {
            lemma_extends_refl(old(log)@);
            lemma_extends_push(old(log)@, old(log)@, line);
        }
    }

    /// Ends a run whose second listing of the directory could not be read.
    pub fn unreadable(self, why: String, log: &mut Vec<String>) -> (r: CleanError)
        ensures
            r is RemovalFailed,
            extends(final(log)@, old(log)@),
    {
        let mut msg = String::from_str("Cannot read directory: ");
        msg.append(why.as_str());
        let mut line = String::from_str("Clean aborted: ");
        line.append(msg.as_str());
        log_line(log, line);
        proof {
            lemma_extends_refl(old(log)@);
            lemma_extends_push(old(log)@, old(log)@, line);
        }
        CleanError::RemovalFailed(msg)
    }

    /// Ends the run. It succeeds unless removals were tried and every one failed.
    pub fn finish(self, log: &mut Vec<String>) -> (r: Result<CleanResult, CleanError>)
        ensures
            r is Err <==> self.fails(),
            r matches Err(e) ==> e is RemovalFailed,
            r matches Ok(c) ==> {
                &&& c.success
                &&& c.bytes_freed == self.freed()
                &&& c.bytes_freed_display@ == size_text(self.freed())
                &&& c.files_removed == self.removed()
                &&& c.items_failed == self.failed()
                &&& c.message@ == cleaned_message(self.freed(), self.removed())
                &&& !c.requires_password
                &&& !c.was_dry_run
                &&& c.items_found@ == self.items_view()
            },
            extends(final(log)@, old(log)@),
    {
        let message = outcome_message(false, self.bytes_freed, self.files_removed);
        let mut line = String::from_str("Clean complete: ");
        line.append(message.as_str());
        log_line(log, line);
        proof {
            lemma_extends_refl(old(log)@);
            lemma_extends_push(old(log)@, old(log)@, line);
        }
        let ghost l1 = log@;
        log_line(log, String::from_str("=== CLEAN OPERATION COMPLETE ==="));
        proof {
            lemma_extends_push(old(log)@, l1, log@.last());
        }
        if self.files_removed == 0 && self.items_failed > 0 {
            let mut msg = String::from_str("every removal failed (");
            let n = decimal_string(self.items_failed);
            msg.append(n.as_str());
            msg.append(" items)");
            return Err(CleanError::RemovalFailed(msg));
        }
        Ok(CleanResult {
            success: true,
            bytes_freed: self.bytes_freed,
            bytes_freed_display: format_size(self.bytes_freed),
            files_removed: self.files_removed,
            items_failed: self.items_failed,
            timestamp: current_timestamp(),
            message,
            requires_password: false,
            was_dry_run: false,
            items_found: self.items,
        })
    }
}

/// How a clean goes on after its first look at the cache.
pub enum CleanStart {
    /// Nothing is to be removed: the outcome.
    Finished(Result<CleanResult, CleanError>),
    /// Entries are to be removed: stop the daemon, wait, list the directory
    /// again, and pass each entry through the run.
    Proceed(CleanRun),
}

/// `c` is the outcome of a dry run over the entries `es` inside `root`.
pub open spec fn dry_outcome(c: CleanResult, es: Seq<ListedEntry>, root: Seq<char>) -> bool {
    &&& c.success
    &&& c.was_dry_run
    &&& !c.requires_password
    &&& lists(c.items_found@, es, root)
    &&& c.bytes_freed == saturated(item_bytes(c.items_found@) as int)
    &&& c.bytes_freed_display@ == size_text(c.bytes_freed as nat)
    &&& c.files_removed == c.items_found@.len()
    &&& c.items_failed == 0
    &&& c.message@ == dry_run_message(c.bytes_freed as nat, c.files_removed as nat)
}

/// `c` is the outcome of a clean that found no cache directory.
pub open spec fn absent_outcome(c: CleanResult, dry_run: bool) -> bool {
    &&& c.success
    &&& c.was_dry_run == dry_run
    &&& !c.requires_password
    &&& c.items_found@.len() == 0
    &&& c.bytes_freed == 0
    &&& c.bytes_freed_display@ == size_text(0)
    &&& c.files_removed == 0
    &&& c.items_failed == 0
    &&& c.message@ == nothing_to_clean_message()
}

/// Starts a clean of the cache: checks the target, takes the inventory, and
/// either ends (a violation, no cache, an unreadable cache, a dry run) or
/// hands back a run for the removals. A dry run never removes anything.
pub fn clean_cache(
    dry_run: bool,
    target: &ResolvedPath,
    expected: &ResolvedPath,
    listing: &Listing,
    log: &mut Vec<String>,
) -> (r: CleanStart)
    ensures
        dry_run ==> r is Finished,
        !path_is_safe(*target, *expected) ==> (r matches CleanStart::Finished(Err(e))
            && e is SafetyViolation),
        path_is_safe(*target, *expected) ==> match *listing {
            Listing::Missing => r matches CleanStart::Finished(Ok(c)) && absent_outcome(c, dry_run),
            Listing::Unreadable(_) => r matches CleanStart::Finished(Err(e)) && e is RemovalFailed,
            Listing::Entries(es) => if dry_run {
                r matches CleanStart::Finished(Ok(c)) && dry_outcome(c, es@, target.canonical@)
            } else {
                r matches CleanStart::Proceed(run) && {
                    &&& run.root_view() == target.canonical@
                    &&& lists(run.items_view(), es@, target.canonical@)
                    &&& run.freed() == 0
                    &&& run.removed() == 0
                    &&& run.failed() == 0
                }
            },
        },
        extends(final(log)@, old(log)@),
{
    proof {
        lemma_extends_refl(log@);
    }
    if let Err(e) = verify_safe_path(target, expected) {
        let mut line = String::from_str("Clean refused: ");
        let m = e.message();
        line.append(m.as_str());
        log_line(log, line);
        proof {
            lemma_extends_push(old(log)@, old(log)@, line);
        }
        return CleanStart::Finished(Err(e));
    }
    let ghost l0 = log@;
    if dry_run {
        log_line(log, String::from_str("=== DRY RUN STARTED ==="));
    } else {
        log_line(log, String::from_str("=== CLEAN OPERATION STARTED ==="));
    }
    let ghost l1 = log@;
    let mut line = String::from_str("Target path: ");
    line.append(target.path.as_str());
    log_line(log, line);
    proof {
        lemma_extends_push(l0, l0, l1.last());
        lemma_extends_push(l0, l1, line);
    }
    let ghost l2 = log@;
    match listing {
        Listing::Missing => {
            let message = String::from_str("Cache directory does not exist - nothing to clean");
            log_line(log, message.clone());
            proof {
                lemma_extends_push(l0, l2, log@.last());
            }
            CleanStart::Finished(
                Ok(
                    CleanResult {
                        success: true,
                        bytes_freed: 0,
                        bytes_freed_display: format_size(0),
                        files_removed: 0,
                        items_failed: 0,
                        timestamp: current_timestamp(),
                        message,
                        requires_password: false,
                        was_dry_run: dry_run,
                        items_found: Vec::new(),
                    },
                ),
            )
        },
        Listing::Unreadable(why) => {
            let mut msg = String::from_str("Cannot read directory: ");
            msg.append(why.as_str());
            log_line(log, msg.clone());
            proof {
                lemma_extends_push(l0, l2, log@.last());
            }
            CleanStart::Finished(Err(CleanError::RemovalFailed(msg)))
        },
        Listing::Entries(es) => {
            let items = items_within(es, target.canonical.as_str(), log);
            let total = total_size(&items);
            let count = items.len() as u64;
            let ghost l3 = log@;
            let mut found = String::from_str("Found ");
            let n = decimal_string(count);
            found.append(n.as_str());
            found.append(" items totaling ");
            let size = format_size(total);
            found.append(size.as_str());
            log_line(log, found);
            proof {
                lemma_extends_push(l2, l3, found);
            }
            if dry_run {
                let ghost l4 = log@;
                log_line(log, String::from_str("DRY RUN - No files were deleted"));
                let ghost l5 = log@;
                log_line(log, String::from_str("=== DRY RUN COMPLETE ==="));
                proof {
                    lemma_extends_push(l2, l4, l5.last());
                    lemma_extends_push(l2, l5, log@.last());
                    lemma_extends_trans(old(log)@, l2, log@);
                }
                CleanStart::Finished(
                    Ok(
                        CleanResult {
                            success: true,
                            bytes_freed: total,
                            bytes_freed_display: format_size(total),
                            files_removed: count,
                            items_failed: 0,
                            timestamp: current_timestamp(),
                            message: outcome_message(true, total, count),
                            requires_password: false,
                            was_dry_run: true,
                            items_found: items,
                        },
                    ),
                )
            } else {
                proof {
                    lemma_extends_trans(old(log)@, l2, log@);
                }
                CleanStart::Proceed(
                    CleanRun {
                        root: target.canonical.clone(),
                        items,
                        bytes_freed: 0,
                        files_removed: 0,
                        items_failed: 0,
                    },
                )
            }
        },
    }
}

/// Two inventories that describe the same entries hold the same sizes.
proof fn lemma_same_listing_same_bytes(a: Seq<DeletionItem>, b: Seq<DeletionItem>, ks: Seq<ListedEntry>)
    requires
        a.len() == ks.len(),
        b.len() == ks.len(),
        forall|i: int| 0 <= i < a.len() ==> describes(#[trigger] a[i], ks[i]),
        forall|i: int| 0 <= i < b.len() ==> describes(#[trigger] b[i], ks[i]),
    ensures
        item_bytes(a) == item_bytes(b),
    decreases ks.len(),
{
    if ks.len() > 0 {
        let n = ks.len() - 1;
        assert(describes(a[n as int], ks[n as int]));
        assert(describes(b[n as int], ks[n as int]));
        assert forall|i: int| 0 <= i < a.drop_last().len() implies describes(
            #[trigger] a.drop_last()[i],
            ks.drop_last()[i],
        ) by {
            assert(describes(a[i], ks[i]));
        }
        assert forall|i: int| 0 <= i < b.drop_last().len() implies describes(
            #[trigger] b.drop_last()[i],
            ks.drop_last()[i],
        ) by {
            assert(describes(b[i], ks[i]));
        }
        lemma_same_listing_same_bytes(a.drop_last(), b.drop_last(), ks.drop_last());
    }
}

/// A dry run reports as freed exactly what an analysis of the same listing
/// finds: the same entries, their total size, and their number.
pub proof fn lemma_dry_run_matches_analysis(
    analysis: Seq<DeletionItem>,
    dry: CleanResult,
    es: Seq<ListedEntry>,
    root: Seq<char>,
)
    requires
        lists(analysis, es, root),
        dry_outcome(dry, es, root),
    ensures
        dry.bytes_freed == saturated(item_bytes(analysis) as int),
        dry.files_removed == analysis.len(),
        dry.items_found@.len() == analysis.len(),
        forall|i: int|
            0 <= i < analysis.len() ==> #[trigger] dry.items_found@[i].size == analysis[i].size
                && dry.items_found@[i].path@ == analysis[i].path@,
{
    let ks = kept(es, root);
    assert forall|i: int| 0 <= i < analysis.len() implies describes(#[trigger] analysis[i], ks[i]) by {}
    assert forall|i: int| 0 <= i < dry.items_found@.len() implies describes(
        #[trigger] dry.items_found@[i],
        ks[i],
    ) by {}
    lemma_same_listing_same_bytes(analysis, dry.items_found@, ks);
    assert forall|i: int| 0 <= i < analysis.len() implies #[trigger] dry.items_found@[i].size
        == analysis[i].size && dry.items_found@[i].path@ == analysis[i].path@ by {
        assert(describes(analysis[i], ks[i]));
        assert(describes(dry.items_found@[i], ks[i]));
    }
}

/// Cleaning a target that holds nothing frees nothing and succeeds, each
/// time it is run: the run that an empty listing starts has no inventory,
/// and with nothing offered to it, it cannot end in failure.
pub proof fn lemma_empty_target_cleans_to_nothing(run: CleanRun, es: Seq<ListedEntry>)
    requires
        es.len() == 0,
        lists(run.items_view(), es, run.root_view()),
        run.freed() == 0,
        run.removed() == 0,
        run.failed() == 0,
    ensures
        run.items_view().len() == 0,
        !run.fails(),
{
}

} // verus!
