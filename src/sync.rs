//! Background sync control: the enabled flag, its status, metrics, the
//! activity log, and the error window that pauses sync after repeated failures.

use vstd::prelude::*;
use vstd::string::*;
use crate::clock;

verus! {

/// Length of the error window, in milliseconds.
pub const WINDOW_MILLIS: i64 = 60000;

/// Errors within the window that pause sync.
pub const THRESHOLD: usize = 5;

/// Why sync is paused.
#[derive(Clone, Copy, Debug, PartialEq, Eq, Structural)]
pub enum PauseReason {
    /// The user switched sync off.
    UserDisabled,
    /// The provider's rate limit is exhausted until `reset_at` (ms since epoch).
    RateLimited { reset_at: i64 },
    /// Too many errors within the window.
    ErrorThreshold,
}

/// Sync status indicator.
#[derive(Clone, Copy, Debug, PartialEq, Eq, Structural)]
pub enum SyncStatus {
    Idle,
    Running,
    Paused { reason: PauseReason },
}

impl Default for SyncStatus {
    fn default() -> (r: Self)
        ensures
            r == SyncStatus::Idle,
    {
        SyncStatus::Idle
    }
}

/// Phase of a sync cycle.
#[derive(Clone, Copy, Debug, PartialEq, Eq, Structural)]
pub enum SyncPhase {
    Idle,
    FetchingFavorites,
    FetchingRuns,
    FetchingJobs,
    DownloadingLogs,
}

impl SyncPhase {
    /// Text shown for the phase.
    pub fn display(&self) -> (r: &'static str)
        ensures
            *self == SyncPhase::Idle ==> r@ == "Idle"@,
            *self == SyncPhase::FetchingFavorites ==> r@ == "Fetching favorites"@,
            *self == SyncPhase::FetchingRuns ==> r@ == "Fetching runs"@,
            *self == SyncPhase::FetchingJobs ==> r@ == "Fetching jobs"@,
            *self == SyncPhase::DownloadingLogs ==> r@ == "Downloading logs"@,
    {
        match self {
            SyncPhase::Idle => "Idle",
            SyncPhase::FetchingFavorites => "Fetching favorites",
            SyncPhase::FetchingRuns => "Fetching runs",
            SyncPhase::FetchingJobs => "Fetching jobs",
            SyncPhase::DownloadingLogs => "Downloading logs",
        }
    }
}

/// Progress of the current sync cycle.
#[derive(Clone, Debug)]
pub struct SyncProgress {
    pub phase: SyncPhase,
    pub current_item: Option<String>,
    pub pending_jobs: usize,
    pub pending_logs: usize,
}

/// Counters kept by sync.
#[derive(Clone, Copy, Debug, PartialEq, Eq, Structural)]
pub struct SyncMetrics {
    pub jobs_synced_total: u64,
    pub jobs_synced_session: u64,
    pub logs_cached_total: u64,
    pub logs_cached_session: u64,
    pub errors_total: u64,
}

/// Level of an activity-log message.
#[derive(Clone, Copy, Debug, PartialEq, Eq, Structural)]
pub enum ConsoleLevel {
    Info,
    Warn,
    Error,
}

/// A message of the activity log.
#[derive(Clone, Debug)]
pub struct ConsoleMessage {
    pub level: ConsoleLevel,
    pub message: String,
    /// When it was logged, in milliseconds since the epoch.
    pub timestamp: i64,
}

impl ConsoleMessage {
    /// A message logged at `now`.
    pub fn new_at(level: ConsoleLevel, message: String, now: i64) -> (r: Self)
        ensures
            r.level == level,
            r.message == message,
            r.timestamp == now,
    {
        ConsoleMessage { level, message, timestamp: now }
    }

    /// An informational message, logged now.
    pub fn info(message: String) -> (r: Self)
        ensures
            r.level == ConsoleLevel::Info,
            r.message == message,
    {
        ConsoleMessage::new_at(ConsoleLevel::Info, message, clock::now().millis)
    }

    /// A warning, logged now.
    pub fn warn(message: String) -> (r: Self)
        ensures
            r.level == ConsoleLevel::Warn,
            r.message == message,
    {
        ConsoleMessage::new_at(ConsoleLevel::Warn, message, clock::now().millis)
    }

    /// An error, logged now.
    pub fn error(message: String) -> (r: Self)
        ensures
            r.level == ConsoleLevel::Error,
            r.message == message,
    {
        ConsoleMessage::new_at(ConsoleLevel::Error, message, clock::now().millis)
    }
}

/// Oldest time still inside the window that ends at `now`.
pub open spec fn cutoff(now: i64) -> i64 {
    if now >= i64::MIN + WINDOW_MILLIS {
        (now - WINDOW_MILLIS) as i64
    } else {
        now
    }
}

/// The error times with every one before `cut` dropped, in order.
pub open spec fn pruned(s: Seq<i64>, cut: i64) -> Seq<i64> {
    s.filter(|t: i64| t >= cut)
}

/// The error times after recording an error at `now`.
pub open spec fn recorded(s: Seq<i64>, now: i64) -> Seq<i64> {
    pruned(s.push(now), cutoff(now))
}

/// The error times after recording errors at each of `ts`, from none.
pub open spec fn recorded_all(ts: Seq<i64>) -> Seq<i64>
    decreases ts.len(),
{
    if ts.len() == 0 {
        Seq::empty()
    } else {
        recorded(recorded_all(ts.drop_last()), ts.last())
    }
}

/// Recent error times, oldest first, for threshold-based pausing.
pub struct ErrorTracker {
    errors: Vec<i64>,
}

impl View for ErrorTracker {
    type V = Seq<i64>;

    closed spec fn view(&self) -> Seq<i64> {
        self.errors@
    }
}

impl ErrorTracker {
    /// No errors recorded.
    pub fn new() -> (r: Self)
        ensures
            r@ == Seq::<i64>::empty(),
    {
        ErrorTracker { errors: Vec::new() }
    }

    /// Drops the errors older than the window that ends at `now`.
    pub fn prune_old_at(&mut self, now: i64)
        ensures
            final(self)@ == pruned(old(self)@, cutoff(now)),
    {
        let cut = if now >= i64::MIN + WINDOW_MILLIS { now - WINDOW_MILLIS } else { now };
        let mut kept: Vec<i64> = Vec::new();
        let mut i: usize = 0;
        while i < self.errors.len()
            invariant
                self@ == old(self)@,
                i <= self@.len(),
                kept@ == self@.subrange(0, i as int).filter(|t: i64| t >= cut),
            decreases self@.len() - i,
        {
            let t = self.errors[i];
            proof {
                let pre = self@.subrange(0, i as int);
                assert(self@.subrange(0, i + 1) =~= pre.push(t));
                pre.lemma_filter_push(t, |t: i64| t >= cut);
            }
            if t >= cut {
                kept.push(t);
            }
            i = i + 1;
        }
        assert(self@.subrange(0, i as int) =~= self@);
        self.errors = kept;
    }

    /// Drops the errors older than the window that ends now.
    pub fn prune_old(&mut self)
        ensures
            exists|now: i64| final(self)@ == pruned(old(self)@, cutoff(now)),
    {
        let t = clock::now();
        self.prune_old_at(t.millis);
    }

    /// Records an error at `now`, drops those older than the window, and
    /// returns whether the window holds the threshold or more.
    pub fn record_error_at(&mut self, now: i64) -> (r: bool)
        ensures
            final(self)@ == recorded(old(self)@, now),
            r == (final(self)@.len() >= THRESHOLD),
    {
        self.errors.push(now);
        self.prune_old_at(now);
        self.errors.len() >= THRESHOLD
    }

    /// Records an error now; returns whether the threshold is reached.
    pub fn record_error(&mut self) -> (r: bool)
        ensures
            exists|now: i64| final(self)@ == recorded(old(self)@, now),
            r == (final(self)@.len() >= THRESHOLD),
    {
        let t = clock::now();
        self.record_error_at(t.millis)
    }

    /// Number of errors in the window.
    pub fn count_in_window(&self) -> (r: usize)
        ensures
            r == self@.len(),
    {
        self.errors.len()
    }

    /// Number of recorded errors within the window that ends at `now`.
    pub fn count_in_window_at(&self, now: i64) -> (r: usize)
        ensures
            r == pruned(self@, cutoff(now)).len(),
    {
        let cut = if now >= i64::MIN + WINDOW_MILLIS { now - WINDOW_MILLIS } else { now };
        let mut n: usize = 0;
        let mut i: usize = 0;
        while i < self.errors.len()
            invariant
                i <= self@.len(),
                n == self@.subrange(0, i as int).filter(|t: i64| t >= cut).len(),
                n <= i,
            decreases self@.len() - i,
        {
            let t = self.errors[i];
            proof {
                let pre = self@.subrange(0, i as int);
                assert(self@.subrange(0, i + 1) =~= pre.push(t));
                pre.lemma_filter_push(t, |t: i64| t >= cut);
            }
            if t >= cut {
                n = n + 1;
            }
            i = i + 1;
        }
        assert(self@.subrange(0, i as int) =~= self@);
        n
    }

    /// Number of recorded errors within the window that ends now.
    pub fn count_in_window_now(&self) -> (r: usize)
        ensures
            exists|now: i64| r == pruned(self@, cutoff(now)).len(),
    {
        self.count_in_window_at(clock::now().millis)
    }

    /// Forgets all errors (after the user resumes).
    pub fn reset(&mut self)
        ensures
            final(self)@ == Seq::<i64>::empty(),
    {
        self.errors.clear();
    }
}

/// Error times that are non-decreasing and all within one window ending at
/// the last of them.
pub open spec fn within_one_window(ts: Seq<i64>) -> bool {
    &&& ts.len() >= 1
    &&& forall|i: int, j: int| 0 <= i <= j < ts.len() ==> ts[i] <= ts[j]
    &&& ts.last() - ts[0] <= WINDOW_MILLIS
    &&& ts[0] >= i64::MIN + WINDOW_MILLIS
}

proof fn lemma_filter_all(s: Seq<i64>, cut: i64)
    requires
        forall|i: int| 0 <= i < s.len() ==> s[i] >= cut,
    ensures
        pruned(s, cut) == s,
    decreases s.len(),
{
    if s.len() > 0 {
        let init = s.drop_last();
        lemma_filter_all(init, cut);
        assert(init.push(s.last()) =~= s);
        init.lemma_filter_push(s.last(), |t: i64| t >= cut);
    } else {
        assert(s.filter(|t: i64| t >= cut) =~= s);
    }
}

proof fn lemma_recorded_all_within(ts: Seq<i64>)
    requires
        within_one_window(ts),
    ensures
        recorded_all(ts) == ts,
    decreases ts.len(),
{
    let init = ts.drop_last();
    if init.len() >= 1 {
        assert(within_one_window(init));
        lemma_recorded_all_within(init);
    } else {
        assert(recorded_all(init) == Seq::<i64>::empty());
        assert(init =~= Seq::<i64>::empty());
    }
    assert(recorded_all(init) == init);
    assert(init.push(ts.last()) =~= ts);
    assert forall|i: int| 0 <= i < ts.len() implies ts[i] >= cutoff(ts.last()) by {
        assert(ts[0] <= ts[i]);
    }
    lemma_filter_all(ts, cutoff(ts.last()));
    assert(recorded_all(ts) == recorded(recorded_all(init), ts.last()));
    assert(recorded(init, ts.last()) == pruned(ts, cutoff(ts.last())));
}

/// Five errors within one window pause sync; the first four of them do not.
pub proof fn law_five_errors_pause(ts: Seq<i64>)
    requires
        ts.len() == 5,
        within_one_window(ts),
    ensures
        recorded_all(ts).len() >= THRESHOLD,
        recorded_all(ts.drop_last()).len() < THRESHOLD,
{
    lemma_recorded_all_within(ts);
    assert(within_one_window(ts.drop_last()));
    lemma_recorded_all_within(ts.drop_last());
}

/// After recording an error, no error older than the window remains counted.
pub proof fn law_old_errors_excluded(s: Seq<i64>, now: i64)
    ensures
        forall|i: int| 0 <= i < recorded(s, now).len() ==> recorded(s, now)[i] >= cutoff(now),
{
    s.push(now).filter_lemma(|t: i64| t >= cutoff(now));
}

/// Complete state of the sync tab.
pub struct SyncTabState {
    /// Whether the user has sync switched on.
    pub enabled: bool,
    pub status: SyncStatus,
    pub progress: SyncProgress,
    pub metrics: SyncMetrics,
    pub error_tracker: ErrorTracker,
    /// The activity log, oldest first.
    pub messages: Vec<ConsoleMessage>,
    /// Selected message of the activity log.
    pub selected: Option<usize>,
}

impl SyncTabState {
    /// Sync off, nothing logged.
    pub fn new() -> (r: Self)
        ensures
            !r.enabled,
            r.status == SyncStatus::Idle,
            r.error_tracker@.len() == 0,
            r.messages@.len() == 0,
            r.selected is None,
            r.metrics.errors_total == 0,
    {
        SyncTabState {
            enabled: false,
            status: SyncStatus::Idle,
            progress: SyncProgress { phase: SyncPhase::Idle, current_item: None, pending_jobs: 0, pending_logs: 0 },
            metrics: SyncMetrics {
                jobs_synced_total: 0,
                jobs_synced_session: 0,
                logs_cached_total: 0,
                logs_cached_session: 0,
                errors_total: 0,
            },
            error_tracker: ErrorTracker::new(),
            messages: Vec::new(),
            selected: None,
        }
    }

    /// Switches sync on or off: on, it runs with a fresh error window; off,
    /// it is paused by the user. Returns whether it is now on.
    pub fn toggle(&mut self) -> (r: bool)
        ensures
            r == !old(self).enabled,
            final(self).enabled == r,
            r ==> final(self).status == SyncStatus::Running && final(self).error_tracker@.len() == 0,
            !r ==> final(self).status == (SyncStatus::Paused { reason: PauseReason::UserDisabled })
                && final(self).error_tracker@ == old(self).error_tracker@,
            final(self).messages@ == old(self).messages@,
    {
        self.enabled = !self.enabled;
        if self.enabled {
            self.status = SyncStatus::Running;
            self.error_tracker.reset();
        } else {
            self.status = SyncStatus::Paused { reason: PauseReason::UserDisabled };
        }
        self.enabled
    }

    fn scroll_to_bottom(&mut self)
        ensures
            final(self).messages@ == old(self).messages@,
            final(self).status == old(self).status,
            final(self).enabled == old(self).enabled,
            final(self).error_tracker@ == old(self).error_tracker@,
            final(self).metrics == old(self).metrics,
            old(self).messages@.len() > 0 ==> final(self).selected == Some((old(self).messages@.len() - 1) as usize),
            old(self).messages@.len() == 0 ==> final(self).selected == old(self).selected,
    {
        if self.messages.len() > 0 {
            self.selected = Some(self.messages.len() - 1);
        }
    }

    /// Appends an informational message at `now` and selects it.
    pub fn log_info_at(&mut self, message: String, now: i64)
        ensures
            final(self).enabled == old(self).enabled,
            final(self).messages@ == old(self).messages@.push(ConsoleMessage { level: ConsoleLevel::Info, message, timestamp: now }),
            final(self).selected == Some(old(self).messages@.len() as usize),
            final(self).status == old(self).status,
            final(self).error_tracker@ == old(self).error_tracker@,
    {
        self.messages.push(ConsoleMessage::new_at(ConsoleLevel::Info, message, now));
        self.scroll_to_bottom();
    }

    /// Appends an informational message, logged now.
    pub fn log_info(&mut self, message: String)
        ensures
            final(self).error_tracker@ == old(self).error_tracker@,
            final(self).enabled == old(self).enabled,
            final(self).messages@.len() == old(self).messages@.len() + 1,
            final(self).messages@.last().level == ConsoleLevel::Info,
            final(self).messages@.last().message == message,
            final(self).status == old(self).status,
    {
        self.log_info_at(message, clock::now().millis);
    }

    /// Appends a warning at `now` and selects it.
    pub fn log_warn_at(&mut self, message: String, now: i64)
        ensures
            final(self).enabled == old(self).enabled,
            final(self).messages@ == old(self).messages@.push(ConsoleMessage { level: ConsoleLevel::Warn, message, timestamp: now }),
            final(self).selected == Some(old(self).messages@.len() as usize),
            final(self).status == old(self).status,
    {
        self.messages.push(ConsoleMessage::new_at(ConsoleLevel::Warn, message, now));
        self.scroll_to_bottom();
    }

    /// Appends a warning, logged now.
    pub fn log_warn(&mut self, message: String)
        ensures
            final(self).enabled == old(self).enabled,
            final(self).messages@.len() == old(self).messages@.len() + 1,
            final(self).messages@.last().level == ConsoleLevel::Warn,
            final(self).messages@.last().message == message,
            final(self).status == old(self).status,
    {
        self.log_warn_at(message, clock::now().millis);
    }

    /// Appends an error at `now`, counts it, records it in the error window,
    /// and pauses sync when the window reaches the threshold.
    pub fn log_error_at(&mut self, message: String, now: i64)
        requires
            old(self).metrics.errors_total < u64::MAX,
        ensures
            final(self).messages@ == old(self).messages@.push(ConsoleMessage { level: ConsoleLevel::Error, message, timestamp: now }),
            final(self).metrics.errors_total == old(self).metrics.errors_total + 1,
            final(self).error_tracker@ == recorded(old(self).error_tracker@, now),
            final(self).error_tracker@.len() >= THRESHOLD ==> final(self).status == (SyncStatus::Paused {
                reason: PauseReason::ErrorThreshold,
            }),
            final(self).error_tracker@.len() < THRESHOLD ==> final(self).status == old(self).status,
            final(self).enabled == old(self).enabled,
    {
        self.messages.push(ConsoleMessage::new_at(ConsoleLevel::Error, message, now));
        self.metrics.errors_total = self.metrics.errors_total + 1;
        if self.error_tracker.record_error_at(now) {
            self.status = SyncStatus::Paused { reason: PauseReason::ErrorThreshold };
        }
        self.scroll_to_bottom();
    }

    /// Appends an error, logged now, and pauses sync at the threshold.
    pub fn log_error(&mut self, message: String)
        requires
            old(self).metrics.errors_total < u64::MAX,
        ensures
            final(self).messages@.len() == old(self).messages@.len() + 1,
            final(self).messages@.last().level == ConsoleLevel::Error,
            final(self).messages@.last().message == message,
            final(self).metrics.errors_total == old(self).metrics.errors_total + 1,
            exists|now: i64| final(self).error_tracker@ == recorded(old(self).error_tracker@, now),
            final(self).error_tracker@.len() >= THRESHOLD ==> final(self).status == (SyncStatus::Paused {
                reason: PauseReason::ErrorThreshold,
            }),
    {
        self.log_error_at(message, clock::now().millis);
    }

    /// Selects the previous message, staying at the first.
    pub fn select_prev(&mut self)
        ensures
            final(self).messages@ == old(self).messages@,
            old(self).messages@.len() == 0 ==> final(self).selected == old(self).selected,
            old(self).messages@.len() > 0 ==> final(self).selected == Some(match old(self).selected {
                Some(i) => if i == 0 { 0 } else { (i - 1) as usize },
                None => (old(self).messages@.len() - 1) as usize,
            }),
    {
        if self.messages.len() == 0 {
            return;
        }
        let i = match self.selected {
            Some(i) => if i == 0 { 0 } else { i - 1 },
            None => self.messages.len() - 1,
        };
        self.selected = Some(i);
    }

    /// Selects the next message, staying at the last.
    pub fn select_next(&mut self)
        ensures
            final(self).messages@ == old(self).messages@,
            old(self).messages@.len() == 0 ==> final(self).selected == old(self).selected,
            old(self).messages@.len() > 0 ==> final(self).selected == Some(match old(self).selected {
                Some(i) => if i >= old(self).messages@.len() - 1 { i } else { (i + 1) as usize },
                None => 0,
            }),
    {
        if self.messages.len() == 0 {
            return;
        }
        let i = match self.selected {
            Some(i) => if i >= self.messages.len() - 1 { i } else { i + 1 },
            None => 0,
        };
        self.selected = Some(i);
    }

    /// Whether sync is on and running.
    pub fn is_running(&self) -> (r: bool)
        ensures
            r == (self.enabled && self.status == SyncStatus::Running),
    {
        self.enabled && match self.status {
            SyncStatus::Running => true,
            _ => false,
        }
    }

    /// Status text and its color name.
    pub fn status_display(&self) -> (r: (&'static str, &'static str))
        ensures
            !self.enabled ==> r.0@ == "OFF"@ && r.1@ == "gray"@,
            self.enabled && self.status == SyncStatus::Idle ==> r.0@ == "IDLE"@ && r.1@ == "gray"@,
            self.enabled && self.status == SyncStatus::Running ==> r.0@ == "ON"@ && r.1@ == "green"@,
            self.enabled && self.status == (SyncStatus::Paused { reason: PauseReason::UserDisabled }) ==> r.0@
                == "OFF"@ && r.1@ == "gray"@,
            self.enabled && self.status is Paused && self.status->reason is RateLimited ==> r.0@ == "RATE LIMITED"@
                && r.1@ == "yellow"@,
            self.enabled && self.status == (SyncStatus::Paused { reason: PauseReason::ErrorThreshold }) ==> r.0@
                == "PAUSED"@ && r.1@ == "red"@,
    {
        if !self.enabled {
            ("OFF", "gray")
        } else {
            match self.status {
                SyncStatus::Idle => ("IDLE", "gray"),
                SyncStatus::Running => ("ON", "green"),
                SyncStatus::Paused { reason } => match reason {
                    PauseReason::UserDisabled => ("OFF", "gray"),
                    PauseReason::RateLimited { .. } => ("RATE LIMITED", "yellow"),
                    PauseReason::ErrorThreshold => ("PAUSED", "red"),
                },
            }
        }
    }
}

} // verus!
