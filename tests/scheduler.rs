use symbolsweep::audit_log::{civil_from_days, format_timestamp, get_log_file_path, log_entry, CivilDate};
use symbolsweep::cache_cleaner::{CleanError, CleanResult};
use symbolsweep::cache_monitor::CacheState;
use symbolsweep::scheduler::{
    format_duration, scheduled_due_at, time_since_last_clean, time_since_last_clean_at,
    NotificationTracker, Scheduler, Settings,
};

const GIB: u64 = 1073741824;

#[test]
fn default_settings() {
    let s = Settings::default();
    assert!(!s.auto_clean_on_threshold);
    assert_eq!(s.auto_clean_threshold, 5 * GIB);
    assert_eq!(s.auto_clean_interval_secs, 6 * 60 * 60);
    assert!(s.show_notifications);
    assert_eq!(s.monitor_interval_secs, 60);
    assert_eq!(s.last_clean_timestamp, 0);
}

#[test]
fn notifications_fire_once_per_entry_into_a_tier() {
    let mut t = NotificationTracker::new();
    let sizes = [4 * GIB, 6 * GIB, 6 * GIB, 6 * GIB, 11 * GIB, 3 * GIB, 6 * GIB];
    let fired: Vec<Option<CacheState>> =
        sizes.iter().map(|s| t.observe(CacheState::from_size(*s))).collect();
    assert_eq!(
        fired,
        vec![
            None,
            Some(CacheState::Warning),
            None,
            None,
            Some(CacheState::Critical),
            None,
            Some(CacheState::Warning)
        ]
    );
}

#[test]
fn scheduled_trigger_boundary() {
    let now = 1_700_000_000u64;
    let mut s = Settings::default();
    s.auto_clean_scheduled = true;
    s.last_clean_timestamp = now - s.auto_clean_interval_secs - 1;
    assert!(scheduled_due_at(&s, now));
    s.last_clean_timestamp = now - s.auto_clean_interval_secs + 1;
    assert!(!scheduled_due_at(&s, now));
    s.last_clean_timestamp = now - s.auto_clean_interval_secs;
    assert!(scheduled_due_at(&s, now));
    s.auto_clean_scheduled = false;
    s.last_clean_timestamp = 0;
    assert!(!scheduled_due_at(&s, now));
}

#[test]
fn threshold_and_either_trigger() {
    let mut s = Settings::default();
    s.auto_clean_on_threshold = true;
    let sched = Scheduler::new(s);
    assert!(sched.should_auto_clean_threshold(5 * GIB));
    assert!(!sched.should_auto_clean_threshold(5 * GIB - 1));
    assert!(sched.check_and_auto_clean(6 * GIB, 10));
    assert!(!sched.check_and_auto_clean(GIB, 10));
    let sched = Scheduler::new(Settings::default());
    assert!(!sched.should_auto_clean_threshold(20 * GIB));
    assert!(!sched.should_auto_clean_scheduled());
}

#[test]
fn settings_updates_keep_the_newest_clean_time() {
    let mut s = Settings::default();
    s.last_clean_timestamp = 500;
    let mut sched = Scheduler::new(s);
    let mut older = Settings::default();
    older.show_notifications = false;
    older.last_clean_timestamp = 100;
    sched.update_settings(older);
    let now = sched.get_settings();
    assert!(!now.show_notifications);
    assert_eq!(now.last_clean_timestamp, 500);
    let mut newer = now;
    newer.last_clean_timestamp = 900;
    sched.update_settings(newer);
    assert_eq!(sched.get_settings().last_clean_timestamp, 900);
}

fn ok_result() -> CleanResult {
    CleanResult {
        success: true,
        bytes_freed: 0,
        bytes_freed_display: "0 B".to_string(),
        files_removed: 0,
        items_failed: 0,
        timestamp: 0,
        message: String::new(),
        requires_password: false,
        was_dry_run: false,
        items_found: Vec::new(),
    }
}

#[test]
fn auto_clean_outcome_records_and_resets_debug_size() {
    let mut s = Settings::default();
    s.debug_mode = true;
    s.debug_simulated_size = 12 * GIB;
    s.last_clean_timestamp = 50;
    let mut sched = Scheduler::new(s);
    assert!(sched.finish_auto_clean(Err(CleanError::Unknown("x".to_string())), 99).is_none());
    assert_eq!(sched.get_settings().debug_simulated_size, 12 * GIB);
    assert!(sched.finish_auto_clean(Ok(ok_result()), 99).is_some());
    assert_eq!(sched.get_settings().debug_simulated_size, 0);
    assert_eq!(sched.get_settings().last_clean_timestamp, 99);
    assert!(sched.finish_auto_clean(Ok(ok_result()), 10).is_some());
    assert_eq!(sched.get_settings().last_clean_timestamp, 99);
}

#[test]
fn record_clean_never_goes_back() {
    let mut s = Settings::default();
    s.record_clean_at(1000);
    assert_eq!(s.last_clean_timestamp, 1000);
    s.record_clean_at(10);
    assert_eq!(s.last_clean_timestamp, 1000);
    s.record_clean();
    assert!(s.last_clean_timestamp >= 1000);
}

#[test]
fn running_flag() {
    let mut sched = Scheduler::new(Settings::default());
    assert!(!sched.is_running());
    sched.start();
    assert!(sched.is_running());
    sched.stop();
    assert!(!sched.is_running());
}

#[test]
fn durations() {
    assert_eq!(format_duration(0), "0 seconds");
    assert_eq!(format_duration(1), "1 second");
    assert_eq!(format_duration(59), "59 seconds");
    assert_eq!(format_duration(60), "1 minute");
    assert_eq!(format_duration(150), "2 minutes");
    assert_eq!(format_duration(3600), "1 hour");
    assert_eq!(format_duration(86399), "23 hours");
    assert_eq!(format_duration(86400), "1 day");
    assert_eq!(format_duration(3 * 86400 + 5), "3 days");
}

#[test]
fn time_since_last_clean_text() {
    let mut s = Settings::default();
    assert_eq!(time_since_last_clean(&s), "Never");
    s.last_clean_timestamp = 1000;
    assert_eq!(time_since_last_clean_at(&s, 1000 + 7200), "2 hours ago");
    assert_eq!(time_since_last_clean_at(&s, 10), "0 seconds ago");
    assert!(time_since_last_clean(&s).ends_with(" ago"));
}

#[test]
fn settings_file_path() {
    assert_eq!(
        Settings::file_path(Some("/Users/ann")),
        "/Users/ann/Library/Application Support/com.mvarley07.symbolsweep/settings.json"
    );
    assert_eq!(
        Settings::file_path(None),
        "/Users/Library/Application Support/com.mvarley07.symbolsweep/settings.json"
    );
    let mut s = Settings::default();
    assert_eq!(s.simulated_size(), None);
    s.debug_mode = true;
    s.debug_simulated_size = 7;
    assert_eq!(s.simulated_size(), Some(7));
}

#[test]
fn calendar_dates() {
    assert_eq!(civil_from_days(0), CivilDate { year: 1970, month: 1, day: 1 });
    assert_eq!(civil_from_days(59), CivilDate { year: 1970, month: 3, day: 1 });
    assert_eq!(civil_from_days(11016), CivilDate { year: 2000, month: 2, day: 29 });
    assert_eq!(civil_from_days(19723), CivilDate { year: 2024, month: 1, day: 1 });
    assert_eq!(civil_from_days(146097), CivilDate { year: 2370, month: 1, day: 1 });
}

#[test]
fn log_timestamps_and_lines() {
    assert_eq!(format_timestamp(0), "1970-01-01 00:00:00");
    assert_eq!(format_timestamp(1709251199), "2024-02-29 23:59:59");
    assert_eq!(format_timestamp(1700000000), "2023-11-14 22:13:20");
    assert_eq!(log_entry(61, "hello"), "[1970-01-01 00:01:01] hello\n");
    assert_eq!(
        get_log_file_path(Some("/Users/ann")),
        "/Users/ann/Library/Logs/SymbolSweep/deletions.log"
    );
    assert_eq!(get_log_file_path(None), "/tmp/Library/Logs/SymbolSweep/deletions.log");
}
