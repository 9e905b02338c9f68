use symbolsweep::cache_cleaner::{analyze_cache, clean_cache, CleanError, CleanStart, Listing};
use symbolsweep::daemon::{after_elevated_signal, after_reindex, after_signal, ProcessOutcome, StopStep};
use symbolsweep::dir_scan::ListedEntry;
use symbolsweep::path_guard::{get_safe_cache_path, verify_safe_path, ResolvedPath};

const ROOT: &str = "/Users/ann/Library/Caches/com.apple.coresymbolicationd";

fn resolved(path: &str, canonical: &str) -> ResolvedPath {
    ResolvedPath { path: path.to_string(), canonical: canonical.to_string() }
}

fn target() -> ResolvedPath {
    resolved(ROOT, ROOT)
}

fn child(name: &str, is_dir: bool, size: u64) -> ListedEntry {
    let path = format!("{}/{}", ROOT, name);
    ListedEntry { name: name.to_string(), path: path.clone(), resolved: path, is_dir, size }
}

#[test]
fn only_the_target_passes_the_guard() {
    assert!(verify_safe_path(&target(), &target()).is_ok());
    let others = [
        resolved(&format!("{}/../other", ROOT), "/Users/ann/Library/Caches/other"),
        resolved(ROOT, "/private/tmp/redirected"),
        resolved(&format!("{}2", ROOT), &format!("{}2", ROOT)),
        resolved("/Users/ann/Library/Caches", "/Users/ann/Library/Caches"),
        resolved("/", "/"),
    ];
    for p in others.iter() {
        match verify_safe_path(p, &target()) {
            Err(CleanError::SafetyViolation(_)) => {}
            other => panic!("{:?} passed: {:?}", p, other),
        }
    }
}

#[test]
fn guard_wants_the_folder_name_in_the_path() {
    let alias = resolved("/Users/ann/cachelink", ROOT);
    assert!(matches!(verify_safe_path(&alias, &target()), Err(CleanError::SafetyViolation(_))));
}

#[test]
fn safe_cache_path_is_fixed_below_home() {
    assert_eq!(get_safe_cache_path("/Users/ann"), ROOT);
}

#[test]
fn analysis_lists_direct_children_inside_the_cache() {
    let mut log = Vec::new();
    let mut escaped = child("evil", false, 999);
    escaped.resolved = "/etc/passwd".to_string();
    let listing = Listing::Entries(vec![child("a", false, 1024), escaped, child("d", true, 2048)]);
    let items = analyze_cache(&target(), &target(), &listing, &mut log).unwrap();
    assert_eq!(items.len(), 2);
    assert_eq!(items[0].path, "a");
    assert_eq!(items[0].size_display, "1 KB");
    assert!(!items[0].is_directory);
    assert_eq!(items[1].path, "d");
    assert!(items[1].is_directory);
    assert_eq!(log.len(), 1);
    assert!(log[0].starts_with("SAFETY: Skipped suspicious path"));
}

#[test]
fn analysis_of_missing_and_unreadable_cache() {
    let mut log = Vec::new();
    assert!(analyze_cache(&target(), &target(), &Listing::Missing, &mut log).unwrap().is_empty());
    let r = analyze_cache(&target(), &target(), &Listing::Unreadable("denied".to_string()), &mut log);
    assert!(matches!(r, Err(CleanError::RemovalFailed(_))));
    let other = resolved("/tmp", "/tmp");
    let r = analyze_cache(&other, &target(), &Listing::Missing, &mut log);
    assert!(matches!(r, Err(CleanError::SafetyViolation(_))));
}

#[test]
fn dry_run_reports_the_analysis_and_removes_nothing() {
    let listing = Listing::Entries(vec![child("a", false, 1024), child("b", true, 3 * 1048576)]);
    let mut log = Vec::new();
    let items = analyze_cache(&target(), &target(), &listing, &mut log).unwrap();
    let total: u64 = items.iter().map(|i| i.size).sum();
    match clean_cache(true, &target(), &target(), &listing, &mut log) {
        CleanStart::Finished(Ok(r)) => {
            assert!(r.was_dry_run);
            assert!(r.success);
            assert_eq!(r.bytes_freed, total);
            assert_eq!(r.files_removed, items.len() as u64);
            assert_eq!(r.bytes_freed_display, "3 MB");
            assert_eq!(r.message, "Dry run: would delete 3 MB (2 items)");
        }
        _ => panic!("a dry run must finish at once"),
    }
}

#[test]
fn cleaning_an_empty_target_twice_frees_nothing() {
    for listing in [Listing::Missing, Listing::Entries(Vec::new())] {
        for _ in 0..2 {
            let mut log = Vec::new();
            let result = match clean_cache(false, &target(), &target(), &listing, &mut log) {
                CleanStart::Finished(r) => r,
                CleanStart::Proceed(run) => run.finish(&mut log),
            };
            let r = result.unwrap();
            assert!(r.success);
            assert_eq!(r.bytes_freed, 0);
            assert_eq!(r.files_removed, 0);
        }
    }
}

#[test]
fn escaping_entry_is_refused_logged_and_not_counted() {
    let listing = Listing::Entries(vec![child("a", false, 100), child("b", true, 50)]);
    let mut log = Vec::new();
    let mut run = match clean_cache(false, &target(), &target(), &listing, &mut log) {
        CleanStart::Proceed(run) => run,
        _ => panic!("a real clean of a full cache proceeds"),
    };
    let mut link = child("link", false, 1_000_000);
    link.resolved = "/Users/ann/Documents".to_string();
    let second = vec![child("a", false, 100), link, child("b", true, 50)];
    for e in second.iter() {
        let before = log.len();
        if run.check_entry(e, &mut log) {
            run.record(e, Ok(()), &mut log);
        } else {
            assert_eq!(log.len(), before + 1);
            assert!(log[before].contains("/link"));
            assert!(log[before].starts_with("SAFETY: Refused to delete path outside cache"));
        }
    }
    let r = run.finish(&mut log).unwrap();
    assert_eq!(r.bytes_freed, 150);
    assert_eq!(r.files_removed, 2);
    assert_eq!(r.message, "Cleaned 150 B (2 items)");
    assert_eq!(r.items_found.len(), 2);
}

#[test]
fn partial_and_total_removal_failures() {
    let listing = Listing::Entries(vec![child("a", false, 100), child("b", false, 50)]);
    let mut log = Vec::new();
    let mut run = match clean_cache(false, &target(), &target(), &listing, &mut log) {
        CleanStart::Proceed(run) => run,
        _ => panic!("proceeds"),
    };
    let a = child("a", false, 100);
    let b = child("b", false, 50);
    assert!(run.check_entry(&a, &mut log));
    run.record(&a, Err("busy".to_string()), &mut log);
    run.record(&b, Ok(()), &mut log);
    let r = run.finish(&mut log).unwrap();
    assert_eq!(r.bytes_freed, 50);
    assert_eq!(r.items_failed, 1);

    let mut run = match clean_cache(false, &target(), &target(), &listing, &mut log) {
        CleanStart::Proceed(run) => run,
        _ => panic!("proceeds"),
    };
    run.record(&a, Err("busy".to_string()), &mut log);
    assert!(matches!(run.finish(&mut log), Err(CleanError::RemovalFailed(_))));
}

#[test]
fn clean_stops_on_violation_and_unreadable_cache() {
    let mut log = Vec::new();
    let other = resolved("/Users/ann", "/Users/ann");
    let r = clean_cache(false, &other, &target(), &Listing::Entries(vec![]), &mut log);
    assert!(matches!(r, CleanStart::Finished(Err(CleanError::SafetyViolation(_)))));
    let r = clean_cache(false, &target(), &target(), &Listing::Unreadable("x".to_string()), &mut log);
    assert!(matches!(r, CleanStart::Finished(Err(CleanError::RemovalFailed(_)))));
}

#[test]
fn error_messages() {
    assert_eq!(CleanError::SafetyViolation("x".to_string()).message(), "SAFETY VIOLATION: x");
    assert_eq!(CleanError::PermissionDenied("y".to_string()).message(), "Permission denied: y");
    assert_eq!(CleanError::DaemonKillFailed("z".to_string()).message(), "Failed to stop daemon: z");
    assert_eq!(CleanError::CacheNotFound("w".to_string()).message(), "Cache not found: w");
    assert_eq!(CleanError::RemovalFailed("v".to_string()).message(), "Failed to remove cache: v");
    assert_eq!(CleanError::Unknown("u".to_string()).message(), "Unknown error: u");
}

fn outcome(success: bool, code: Option<i32>, stderr: &str) -> ProcessOutcome {
    ProcessOutcome { success, code, stderr: stderr.to_string() }
}

#[test]
fn daemon_stop_decisions() {
    let mut log = Vec::new();
    assert_eq!(after_signal(Ok(outcome(true, Some(0), "")), &mut log).unwrap(), StopStep::Stopped);
    assert_eq!(after_signal(Ok(outcome(false, Some(1), "")), &mut log).unwrap(), StopStep::Stopped);
    assert_eq!(after_signal(Ok(outcome(false, Some(2), "")), &mut log).unwrap(), StopStep::Escalate);
    assert!(matches!(
        after_signal(Err("no killall".to_string()), &mut log),
        Err(CleanError::DaemonKillFailed(_))
    ));
    assert!(after_elevated_signal(Ok(outcome(true, Some(0), "")), &mut log).is_ok());
    assert!(matches!(
        after_elevated_signal(Ok(outcome(false, Some(1), "execution error: User canceled. (-128)")), &mut log),
        Err(CleanError::PermissionDenied(_))
    ));
    assert!(matches!(
        after_elevated_signal(Ok(outcome(false, Some(1), "boom")), &mut log),
        Err(CleanError::DaemonKillFailed(m)) if m == "boom"
    ));
}

#[test]
fn reindex_failures_other_than_cancel_are_ignored() {
    let mut log = Vec::new();
    assert!(after_reindex(Ok(outcome(false, Some(1), "boom")), &mut log).is_ok());
    assert!(after_reindex(Err("missing".to_string()), &mut log).is_ok());
    assert!(matches!(
        after_reindex(Ok(outcome(false, Some(1), "User canceled.")), &mut log),
        Err(CleanError::PermissionDenied(_))
    ));
}
