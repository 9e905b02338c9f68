use symbolsweep::tray::{escape_quotes_of, format_tray_title, format_tray_tooltip, notification_script};
use symbolsweep::cache_monitor::{
    format_size, format_with_commas, get_cache_path, get_cache_status, get_combined_cache_status,
    get_simulated_status, get_system_cache_path, CacheState,
};
use symbolsweep::dir_scan::{DirScan, ListedEntry, ScanTotals};

#[test]
fn test_format_size() {
    assert_eq!(format_size(0), "0 B");
    assert_eq!(format_size(500), "500 B");
    assert_eq!(format_size(1024), "1 KB");
    assert_eq!(format_size(1048576), "1 MB");
    assert_eq!(format_size(500 * 1024 * 1024), "500 MB");
    assert_eq!(format_size(999 * 1024 * 1024), "999 MB");
    // 1000 MB should show as GB (threshold)
    assert_eq!(format_size(1000 * 1024 * 1024), "1 GB");
    assert_eq!(format_size(1073741824), "1 GB"); // 1024 MB = 1 GB
    assert_eq!(format_size(5368709120), "5 GB");
}

#[test]
fn test_cache_state_from_size() {
    assert_eq!(CacheState::from_size(0), CacheState::Normal);
    assert_eq!(CacheState::from_size(4 * 1024 * 1024 * 1024), CacheState::Normal);
    assert_eq!(CacheState::from_size(5 * 1024 * 1024 * 1024), CacheState::Warning);
    assert_eq!(CacheState::from_size(7 * 1024 * 1024 * 1024), CacheState::Warning);
    assert_eq!(CacheState::from_size(10 * 1024 * 1024 * 1024), CacheState::Critical);
    assert_eq!(CacheState::from_size(15 * 1024 * 1024 * 1024), CacheState::Critical);
}

#[test]
fn format_size_tenths_of_gigabytes() {
    assert_eq!(format_size(1610612736), "1.5 GB");
    assert_eq!(format_size(1342177280), "1.3 GB"); // 1.25 GiB, the half rounds up
    assert_eq!(format_size(1048575999), "999 MB");
    assert_eq!(format_size(1023), "1023 B");
    assert_eq!(format_size(1025), "1 KB");
    assert_eq!(format_size(u64::MAX), "17179869184 GB");
}

#[test]
fn tiers_at_the_thresholds() {
    assert_eq!(CacheState::from_size(5368709119), CacheState::Normal);
    assert_eq!(CacheState::from_size(5368709120), CacheState::Warning);
    assert_eq!(CacheState::from_size(10737418239), CacheState::Warning);
    assert_eq!(CacheState::from_size(10737418240), CacheState::Critical);
    assert_eq!(CacheState::Warning.as_str(), "warning");
    assert_eq!(CacheState::Normal.as_str(), "normal");
    assert_eq!(CacheState::Critical.as_str(), "critical");
}

#[test]
fn commas_between_groups() {
    assert_eq!(format_with_commas(0), "0");
    assert_eq!(format_with_commas(999), "999");
    assert_eq!(format_with_commas(1250), "1,250");
    assert_eq!(format_with_commas(1000005), "1,000,005");
}

#[test]
fn cache_paths() {
    assert_eq!(
        get_cache_path(Some("/Users/ann")),
        "/Users/ann/Library/Caches/com.apple.coresymbolicationd"
    );
    assert_eq!(get_cache_path(None), "/Users/Library/Caches/com.apple.coresymbolicationd");
    assert_eq!(
        get_system_cache_path(),
        "/System/Library/Caches/com.apple.coresymbolicationd"
    );
}

#[test]
fn status_of_missing_and_measured_cache() {
    let missing = get_cache_status("/c".to_string(), None);
    assert!(!missing.exists);
    assert_eq!(missing.size_bytes, 0);
    assert_eq!(missing.size_display, "0 B");
    assert_eq!(missing.state, CacheState::Normal);
    let measured = get_cache_status(
        "/c".to_string(),
        Some(ScanTotals { size_bytes: 6 * 1073741824, file_count: 12 }),
    );
    assert!(measured.exists);
    assert_eq!(measured.size_display, "6 GB");
    assert_eq!(measured.state, CacheState::Warning);
    assert_eq!(measured.file_count, 12);
    assert_eq!(measured.path, "/c");
}

#[test]
fn combined_status_sums_both_caches() {
    let user = get_cache_status(
        "/u".to_string(),
        Some(ScanTotals { size_bytes: 4 * 1073741824, file_count: 3 }),
    );
    let combined = get_combined_cache_status(
        user,
        Some(ScanTotals { size_bytes: 7 * 1073741824, file_count: 99 }),
    );
    assert_eq!(combined.size_bytes, 11 * 1073741824);
    assert_eq!(combined.state, CacheState::Critical);
    assert_eq!(combined.file_count, 3);
    assert_eq!(combined.path, "/u");
    let user = get_cache_status("/u".to_string(), Some(ScanTotals { size_bytes: 10, file_count: 1 }));
    let alone = get_combined_cache_status(user, None);
    assert_eq!(alone.size_bytes, 10);
}

#[test]
fn simulated_status() {
    let s = get_simulated_status(3 * 1048576);
    assert_eq!(s.path, "[Debug Mode]");
    assert_eq!(s.file_count, 3);
    assert_eq!(s.size_display, "3 MB");
    assert!(s.exists);
}

fn entry(path: &str, resolved: &str, is_dir: bool, size: u64) -> ListedEntry {
    ListedEntry {
        name: path.rsplit('/').next().unwrap().to_string(),
        path: path.to_string(),
        resolved: resolved.to_string(),
        is_dir,
        size,
    }
}

#[test]
fn scan_counts_files_and_enters_directories_under_the_root() {
    let mut scan = DirScan::new("/c".to_string());
    assert_eq!(scan.next_dir(), Some("/c".to_string()));
    scan.absorb(&vec![
        entry("/c/a", "/c/a", false, 100),
        entry("/c/sub", "/c/sub", true, 0),
        entry("/c/link", "/etc/passwd", false, 5000),
        entry("/c/dirlink", "/etc", true, 0),
        entry("/c2", "/c2", false, 7),
    ]);
    assert_eq!(scan.next_dir(), Some("/c/sub".to_string()));
    scan.absorb(&vec![entry("/c/sub/b", "/c/sub/b", false, 23)]);
    assert_eq!(scan.next_dir(), None);
    assert_eq!(scan.totals(), ScanTotals { size_bytes: 123, file_count: 2 });
}

#[test]
fn tray_title_and_tooltip() {
    let s = get_simulated_status(11 * 1073741824);
    assert_eq!(format_tray_title(&s), "🔴 11 GB");
    assert_eq!(format_tray_tooltip(&s), "SymbolSweep\n11 GB - 11264 files\nStatus: Critical (10GB+)");
    let s = get_simulated_status(0);
    assert_eq!(format_tray_title(&s), "🟢 0 B");
    let s = get_simulated_status(6 * 1073741824);
    assert_eq!(format_tray_title(&s), "🟠 6 GB");
}

#[test]
fn notification_script_escapes_quotes() {
    assert_eq!(escape_quotes_of("say \"hi\""), "say \\\"hi\\\"");
    assert_eq!(escape_quotes_of(""), "");
    assert_eq!(
        notification_script("T\"", "b", "Glass"),
        "display notification \"b\" with title \"T\\\"\" sound name \"Glass\""
    );
}
