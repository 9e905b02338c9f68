//! User policy, the auto-clean triggers, and the edge-triggered
//! notifications of the monitor loop.

use vstd::prelude::*;

use crate::cache_cleaner::{CleanError, CleanResult};
use crate::cache_monitor::{CacheState, CacheStatus, WARNING_THRESHOLD};
use crate::clock::current_timestamp;
use crate::text::{decimal, decimal_string};

verus! {

/// The persisted policy.
#[derive(Debug, Clone, Copy, PartialEq, Eq, Structural)]
pub struct Settings {
    /// Clean automatically once the cache reaches `auto_clean_threshold`.
    pub auto_clean_on_threshold: bool,
    pub auto_clean_threshold: u64,
    /// Clean automatically once `auto_clean_interval_secs` have passed since the last clean.
    pub auto_clean_scheduled: bool,
    pub auto_clean_interval_secs: u64,
    pub show_notifications: bool,
    pub launch_at_login: bool,
    /// When the last clean finished, in seconds since the epoch; 0 for never.
    pub last_clean_timestamp: u64,
    pub monitor_interval_secs: u64,
    /// Report `debug_simulated_size` in place of the measured size.
    pub debug_mode: bool,
    pub debug_simulated_size: u64,
    pub first_run_completed: bool,
    pub first_clean_confirmed: bool,
}

/// The policy of a first start: no automatic cleaning, a threshold of
/// 5 GiB and an interval of six hours once enabled, notifications on, and a
/// poll every minute.
pub open spec fn default_settings() -> Settings {
    Settings {
        auto_clean_on_threshold: false,
        auto_clean_threshold: WARNING_THRESHOLD,
        auto_clean_scheduled: false,
        auto_clean_interval_secs: 21600,
        show_notifications: true,
        launch_at_login: false,
        last_clean_timestamp: 0,
        monitor_interval_secs: 60,
        debug_mode: false,
        debug_simulated_size: 0,
        first_run_completed: false,
        first_clean_confirmed: false,
    }
}

impl Default for Settings {
    fn default() -> (r: Settings)
        ensures
            r == default_settings(),
    {
        Settings {
            auto_clean_on_threshold: false,
            auto_clean_threshold: WARNING_THRESHOLD,
            auto_clean_scheduled: false,
            auto_clean_interval_secs: 21600,
            show_notifications: true,
            launch_at_login: false,
            last_clean_timestamp: 0,
            monitor_interval_secs: 60,
            debug_mode: false,
            debug_simulated_size: 0,
            first_run_completed: false,
            first_clean_confirmed: false,
        }
    }
}

/// The later of two instants.
pub open spec fn later(a: u64, b: u64) -> u64 {
    if a >= b {
        a
    } else {
        b
    }
}

/// `new` is `old` with a clean recorded at `now`: the last-clean time never goes back.
pub open spec fn clean_recorded(new: Settings, old: Settings, now: u64) -> bool {
    new == Settings { last_clean_timestamp: later(old.last_clean_timestamp, now), ..old }
}

/// Where the settings file lies below a home directory.
pub open spec fn settings_path_under(home: Seq<char>) -> Seq<char> {
    home + "/Library/Application Support/com.mvarley07.symbolsweep/settings.json"@
}

impl Settings {
    /// The settings file below `home`, or below `/Users` when there is no home directory.
    pub fn file_path(home: Option<&str>) -> (r: String)
        ensures
            home matches Some(h) ==> r@ == settings_path_under(h@),
            home is None ==> r@ == settings_path_under("/Users"@),
    {
        let mut r = match home {
            Some(h) => String::from_str(h),
            None => String::from_str("/Users"),
        };
        r.append("/Library/Application Support/com.mvarley07.symbolsweep/settings.json");
        r
    }

    /// Records a clean that finished at `now`.
    pub fn record_clean_at(&mut self, now: u64)
        ensures
            clean_recorded(*final(self), *old(self), now),
    {
        if now > self.last_clean_timestamp {
            self.last_clean_timestamp = now;
        }
    }

    /// Records a clean that finished just now.
    pub fn record_clean(&mut self)
        ensures
            exists|now: u64| clean_recorded(*final(self), *old(self), now),
    {
        let now = current_timestamp();
        self.record_clean_at(now);
    }

    /// The size to report in place of a measurement, in debug mode.
    pub fn simulated_size(&self) -> (r: Option<u64>)
        ensures
            self.debug_mode ==> r == Some(self.debug_simulated_size),
            !self.debug_mode ==> r is None,
    {
        if self.debug_mode {
            Some(self.debug_simulated_size)
        } else {
            None
        }
    }
}

/// The threshold trigger: enabled, and the cache has reached the threshold.
pub open spec fn threshold_due(s: Settings, size_bytes: u64) -> bool {
    s.auto_clean_on_threshold && size_bytes >= s.auto_clean_threshold
}

/// Seconds from `since` to `now`, 0 when `since` lies ahead.
pub open spec fn elapsed(since: u64, now: u64) -> nat {
    if now >= since {
        (now - since) as nat
    } else {
        0
    }
}

/// The scheduled trigger: enabled, and the interval has passed since the last clean.
pub open spec fn scheduled_due(s: Settings, now: u64) -> bool {
    s.auto_clean_scheduled && elapsed(s.last_clean_timestamp, now) >= s.auto_clean_interval_secs
}

/// Whether the scheduled trigger fires at `now`.
pub fn scheduled_due_at(s: &Settings, now: u64) -> (r: bool)
    ensures
        r == scheduled_due(*s, now),
{
    if !s.auto_clean_scheduled {
        return false;
    }
    let since = now.saturating_sub(s.last_clean_timestamp);
    since >= s.auto_clean_interval_secs
}

/// The scheduled trigger fires one second past the interval and not one
/// second before it ends.
pub proof fn lemma_scheduled_trigger_boundary(s: Settings, now: u64)
    requires
        s.auto_clean_scheduled,
        s.auto_clean_interval_secs >= 1,
        now >= s.auto_clean_interval_secs + 1,
    ensures
        scheduled_due(
            Settings { last_clean_timestamp: (now - s.auto_clean_interval_secs - 1) as u64, ..s },
            now,
        ),
        !scheduled_due(
            Settings { last_clean_timestamp: (now - s.auto_clean_interval_secs + 1) as u64, ..s },
            now,
        ),
{
}

/// The policy together with whether the monitor loop is to keep running.
pub struct Scheduler {
    settings: Settings,
    running: bool,
}

impl Scheduler {
    pub closed spec fn settings_view(&self) -> Settings {
        self.settings
    }

    pub closed spec fn running_view(&self) -> bool {
        self.running
    }

    pub fn new(settings: Settings) -> (r: Scheduler)
        ensures
            r.settings_view() == settings,
            !r.running_view(),
    {
        Scheduler { settings, running: false }
    }

    pub fn get_settings(&self) -> (r: Settings)
        ensures
            r == self.settings_view(),
    {
        self.settings
    }

    /// Replaces the policy, except that the last-clean time never goes back:
    /// a write made from an older copy keeps the newer time.
    pub fn update_settings(&mut self, new_settings: Settings)
        ensures
            final(self).settings_view() == (Settings {
                last_clean_timestamp: later(
                    old(self).settings_view().last_clean_timestamp,
                    new_settings.last_clean_timestamp,
                ),
                ..new_settings
            }),
            final(self).running_view() == old(self).running_view(),
    {
        let last = if self.settings.last_clean_timestamp >= new_settings.last_clean_timestamp {
            self.settings.last_clean_timestamp
        } else {
            new_settings.last_clean_timestamp
        };
        self.settings = new_settings;
        self.settings.last_clean_timestamp = last;
    }

    /// Whether the threshold trigger fires for a cache of `size_bytes`.
    pub fn should_auto_clean_threshold(&self, size_bytes: u64) -> (r: bool)
        ensures
            r == threshold_due(self.settings_view(), size_bytes),
    {
        self.settings.auto_clean_on_threshold && size_bytes >= self.settings.auto_clean_threshold
    }

    /// Whether the scheduled trigger fires now.
    pub fn should_auto_clean_scheduled(&self) -> (r: bool)
        ensures
            exists|now: u64| r == scheduled_due(self.settings_view(), now),
    {
        let now = current_timestamp();
        let r = scheduled_due_at(&self.settings, now);
        assert(r == scheduled_due(self.settings_view(), now));
        r
    }

    /// Whether a poll that measured `size_bytes` at `now` is to clean: either
    /// trigger is enough.
    pub fn check_and_auto_clean(&self, size_bytes: u64, now: u64) -> (r: bool)
        ensures
            r == (threshold_due(self.settings_view(), size_bytes) || scheduled_due(
                self.settings_view(),
                now,
            )),
    {
        self.should_auto_clean_threshold(size_bytes) || scheduled_due_at(&self.settings, now)
    }

    /// Takes in the outcome of an automatic clean that ended at `now`. A
    /// success records the clean and, in debug mode, sets the simulated size
    /// back to zero so that the trigger does not fire again at once; a
    /// failure changes nothing.
    pub fn finish_auto_clean(&mut self, outcome: Result<CleanResult, CleanError>, now: u64) -> (r:
        Option<CleanResult>)
        ensures
            final(self).running_view() == old(self).running_view(),
            outcome is Err ==> r is None && final(self).settings_view() == old(
                self,
            ).settings_view(),
            outcome is Ok ==> r is Some && final(self).settings_view() == (Settings {
                last_clean_timestamp: later(old(self).settings_view().last_clean_timestamp, now),
                debug_simulated_size: if old(self).settings_view().debug_mode {
                    0
                } else {
                    old(self).settings_view().debug_simulated_size
                },
                ..old(self).settings_view()
            }),
    {
        match outcome {
            Ok(result) => {
                self.settings.record_clean_at(now);
                if self.settings.debug_mode {
                    self.settings.debug_simulated_size = 0;
                }
                Some(result)
            },
            Err(_) => None,
        }
    }

    /// Marks the monitor loop as running; the host runs it while this holds.
    pub fn start(&mut self)
        ensures
            final(self).running_view(),
            final(self).settings_view() == old(self).settings_view(),
    {
        self.running = true;
    }

    pub fn stop(&mut self)
        ensures
            !final(self).running_view(),
            final(self).settings_view() == old(self).settings_view(),
    {
        self.running = false;
    }

    pub fn is_running(&self) -> (r: bool)
        ensures
            r == self.running_view(),
    {
        self.running
    }
}

/// What the monitor loop reports.
#[derive(Debug, Clone)]
pub enum SchedulerEvent {
    CacheStatusUpdate(CacheStatus),
    WarningThresholdReached,
    CriticalThresholdReached,
    AutoCleanTriggered,
    AutoCleanCompleted(CleanResult),
    AutoCleanFailed(String),
}

/// Which tier notifications have fired since the cache was last seen in the
/// normal tier. Lives as long as the monitor loop; never persisted.
#[derive(Debug, Clone, Copy, PartialEq, Eq, Structural)]
pub struct NotificationTracker {
    pub warning_fired: bool,
    pub critical_fired: bool,
}

/// The notification that a poll in tier `state` fires, given the latches.
pub open spec fn fires(t: NotificationTracker, state: CacheState) -> Option<CacheState> {
    match state {
        CacheState::Warning => if t.warning_fired {
            None
        } else {
            Some(CacheState::Warning)
        },
        CacheState::Critical => if t.critical_fired {
            None
        } else {
            Some(CacheState::Critical)
        },
        CacheState::Normal => None,
    }
}

/// The latches after a poll in tier `state`: a tier's latch is set once it
/// fires, and both are cleared in the normal tier.
pub open spec fn latched(t: NotificationTracker, state: CacheState) -> NotificationTracker {
    match state {
        CacheState::Warning => NotificationTracker { warning_fired: true, ..t },
        CacheState::Critical => NotificationTracker { critical_fired: true, ..t },
        CacheState::Normal => NotificationTracker { warning_fired: false, critical_fired: false },
    }
}

impl NotificationTracker {
    pub fn new() -> (r: NotificationTracker)
        ensures
            !r.warning_fired,
            !r.critical_fired,
    {
        NotificationTracker { warning_fired: false, critical_fired: false }
    }

    /// Takes in the tier of one poll and says which notification, if any, it fires.
    pub fn observe(&mut self, state: CacheState) -> (r: Option<CacheState>)
        ensures
            r == fires(*old(self), state),
            *final(self) == latched(*old(self), state),
    {
        match state {
            CacheState::Warning => {
                if self.warning_fired {
                    None
                } else {
                    self.warning_fired = true;
                    Some(CacheState::Warning)
                }
            },
            CacheState::Critical => {
                if self.critical_fired {
                    None
                } else {
                    self.critical_fired = true;
                    Some(CacheState::Critical)
                }
            },
            CacheState::Normal => {
                self.warning_fired = false;
                self.critical_fired = false;
                None
            },
        }
    }
}

/// The notifications that a tracker starting from `t` fires over a run of polls.
pub open spec fn replay(t: NotificationTracker, states: Seq<CacheState>) -> Seq<Option<CacheState>>
    decreases states.len(),
{
    if states.len() == 0 {
        seq![]
    } else {
        seq![fires(t, states[0])] + replay(latched(t, states[0]), states.drop_first())
    }
}

/// The latch of a tier that is not the normal one.
pub open spec fn latch_of(t: NotificationTracker, tier: CacheState) -> bool {
    match tier {
        CacheState::Warning => t.warning_fired,
        CacheState::Critical => t.critical_fired,
        CacheState::Normal => false,
    }
}

/// No poll of `states` from `i` to `j` is in the normal tier.
pub open spec fn no_normal_between(states: Seq<CacheState>, i: int, j: int) -> bool {
    forall|k: int| i <= k <= j ==> #[trigger] states[k] != CacheState::Normal
}

proof fn lemma_replay_len(t: NotificationTracker, states: Seq<CacheState>)
    ensures
        replay(t, states).len() == states.len(),
    decreases states.len(),
{
    if states.len() > 0 {
        lemma_replay_len(latched(t, states[0]), states.drop_first());
    }
}

proof fn lemma_latched_stays(t: NotificationTracker, tier: CacheState, states: Seq<CacheState>, j: int)
    requires
        tier != CacheState::Normal,
        latch_of(t, tier),
        0 <= j < states.len(),
        no_normal_between(states, 0, j),
    ensures
        replay(t, states)[j] != Some(tier),
    decreases states.len(),
{
    lemma_replay_len(t, states);
    assert(states[0] != CacheState::Normal);
    let next = latched(t, states[0]);
    assert(latch_of(next, tier));
    if j > 0 {
        let rest = states.drop_first();
        assert forall|k: int| 0 <= k <= j - 1 implies #[trigger] rest[k] != CacheState::Normal by {
            assert(rest[k] == states[k + 1]);
        }
        lemma_latched_stays(next, tier, rest, j - 1);
        assert(replay(t, states)[j] == replay(next, rest)[j - 1]);
    }
}

/// A tier's notification fires at most once while the cache stays out of
/// the normal tier: after it fires at one poll, it does not fire again at
/// any later poll unless a poll in between saw the normal tier.
pub proof fn lemma_fires_once_per_dwell(
    t: NotificationTracker,
    states: Seq<CacheState>,
    i: int,
    j: int,
)
    requires
        0 <= i < j < states.len(),
        no_normal_between(states, i, j),
    ensures
        replay(t, states)[i] is Some ==> replay(t, states)[j] != replay(t, states)[i],
    decreases states.len(),
{
    lemma_replay_len(t, states);
    let rest = states.drop_first();
    let next = latched(t, states[0]);
    if i == 0 {
        if let Some(tier) = fires(t, states[0]) {
            assert(tier == states[0] && tier != CacheState::Normal);
            assert(latch_of(next, tier));
            assert forall|k: int| 0 <= k <= j - 1 implies #[trigger] rest[k] != CacheState::Normal by {
                assert(rest[k] == states[k + 1]);
            }
            lemma_latched_stays(next, tier, rest, j - 1);
            assert(replay(t, states)[j] == replay(next, rest)[j - 1]);
        }
    } else {
        assert forall|k: int| i - 1 <= k <= j - 1 implies #[trigger] rest[k] != CacheState::Normal by {
            assert(rest[k] == states[k + 1]);
        }
        lemma_fires_once_per_dwell(next, rest, i - 1, j - 1);
        assert(replay(t, states)[j] == replay(next, rest)[j - 1]);
        assert(replay(t, states)[i] == replay(next, rest)[i - 1]);
    }
}

/// A count with its unit, the unit plural unless the count is one.
pub open spec fn counted_unit(n: nat, unit: Seq<char>) -> Seq<char> {
    if n == 1 {
        "1 "@ + unit
    } else {
        decimal(n) + " "@ + unit + "s"@
    }
}

/// A duration in its largest whole unit: seconds below a minute, minutes
/// below an hour, hours below a day, else days.
pub open spec fn duration_text(secs: nat) -> Seq<char> {
    if secs < 60 {
        counted_unit(secs, "second"@)
    } else if secs < 3600 {
        counted_unit(secs / 60, "minute"@)
    } else if secs < 86400 {
        counted_unit(secs / 3600, "hour"@)
    } else {
        counted_unit(secs / 86400, "day"@)
    }
}

fn counted_unit_string(n: u64, unit: &str) -> (r: String)
    ensures
        r@ == counted_unit(n as nat, unit@),
{
    if n == 1 {
        let mut r = String::from_str("1 ");
        r.append(unit);
        r
    } else {
        let mut r = decimal_string(n);
        r.append(" ");
        r.append(unit);
        r.append("s");
        r
    }
}

/// Format a duration for display.
pub fn format_duration(secs: u64) -> (r: String)
    ensures
        r@ == duration_text(secs as nat),
{
    if secs < 60 {
        counted_unit_string(secs, "second")
    } else if secs < 3600 {
        counted_unit_string(secs / 60, "minute")
    } else if secs < 86400 {
        counted_unit_string(secs / 3600, "hour")
    } else {
        counted_unit_string(secs / 86400, "day")
    }
}

/// How long ago the last clean was, seen at `now`.
pub open spec fn since_text(s: Settings, now: u64) -> Seq<char> {
    if s.last_clean_timestamp == 0 {
        "Never"@
    } else {
        duration_text(elapsed(s.last_clean_timestamp, now)) + " ago"@
    }
}

/// How long ago the last clean was, seen at `now`.
pub fn time_since_last_clean_at(settings: &Settings, now: u64) -> (r: String)
    ensures
        r@ == since_text(*settings, now),
{
    if settings.last_clean_timestamp == 0 {
        return String::from_str("Never");
    }
    let mut r = format_duration(now.saturating_sub(settings.last_clean_timestamp));
    r.append(" ago");
    r
}

/// How long ago the last clean was.
pub fn time_since_last_clean(settings: &Settings) -> (r: String)
    ensures
        exists|now: u64| r@ == since_text(*settings, now),
        settings.last_clean_timestamp == 0 ==> r@ == "Never"@,
{
    let now = current_timestamp();
    time_since_last_clean_at(settings, now)
}

} // verus!
