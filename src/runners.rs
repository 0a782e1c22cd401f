//! The runners tab: a hierarchy parallel to the workflows one (repositories,
//! runners, runs, jobs, logs), with its own lists and the runners-list
//! auto-refresh schedule.

use vstd::prelude::*;
use vstd::string::*;
use crate::grouping::{JobGroup, JobListItem, flat_of};
use crate::lists::{LoadingState, SelectableList};
use crate::log::{down_cursor, line_count, last_line, moved, up_cursor};
use crate::log;
use crate::navigation::{capped, popped, Level, LevelStack};
use crate::text::{concat_str, decimal, decimal_text};
use crate::types::{EnrichedRunner, Job, Repository, RunConclusion, RunStatus, WorkflowRun};
use crate::workflows::{log_lines, PAGE_LINES, SCROLL_COLUMNS};

verus! {

/// Time between refreshes of the runners list, in milliseconds.
pub const REFRESH_MILLIS: i64 = 60000;

/// Navigation level of the runners tab.
#[derive(Clone, Debug, PartialEq, Eq)]
pub enum RunnersViewLevel {
    /// Repositories with runners.
    Repositories,
    /// Runners of a repository.
    Runners { owner: String, repo: String },
    /// Runs of a repository, optionally those of one runner.
    Runs { owner: String, repo: String, runner_name: Option<String> },
    /// Jobs of a run.
    Jobs { owner: String, repo: String, run_id: u64, run_number: u64 },
    /// The log of a job.
    Logs {
        owner: String,
        repo: String,
        run_id: u64,
        job_id: u64,
        job_name: String,
        job_status: RunStatus,
        job_conclusion: Option<RunConclusion>,
    },
}

/// The display title of a runners level.
pub open spec fn runners_title(l: RunnersViewLevel) -> Seq<char> {
    match l {
        RunnersViewLevel::Repositories => "Repositories"@,
        RunnersViewLevel::Runners { owner, repo } => owner@ + "/"@ + repo@ + " / Runners"@,
        RunnersViewLevel::Runs { runner_name, .. } => match runner_name {
            Some(n) => n@ + " / Runs"@,
            None => "All Runs"@,
        },
        RunnersViewLevel::Jobs { run_number, .. } => "Run #"@ + decimal(run_number as nat) + " / Jobs"@,
        RunnersViewLevel::Logs { job_name, .. } => job_name@ + " / Logs"@,
    }
}

/// The breadcrumb label of a runners level.
pub open spec fn runners_label(l: RunnersViewLevel) -> Seq<char> {
    match l {
        RunnersViewLevel::Repositories => "Repos"@,
        RunnersViewLevel::Runners { repo, .. } => repo@,
        RunnersViewLevel::Runs { runner_name, .. } => match runner_name {
            Some(n) => n@,
            None => "Runs"@,
        },
        RunnersViewLevel::Jobs { run_number, .. } => "#"@ + decimal(run_number as nat),
        RunnersViewLevel::Logs { job_name, .. } => job_name@,
    }
}

impl RunnersViewLevel {
    /// The display title for this level.
    pub fn title(&self) -> (r: String)
        ensures
            r@ == runners_title(*self),
    {
        match self {
            RunnersViewLevel::Repositories => String::from_str("Repositories"),
            RunnersViewLevel::Runners { owner, repo } => {
                let mut s = concat_str(owner.as_str(), "/");
                s.append(repo.as_str());
                s.append(" / Runners");
                s
            },
            RunnersViewLevel::Runs { runner_name, .. } => match runner_name {
                Some(n) => concat_str(n.as_str(), " / Runs"),
                None => String::from_str("All Runs"),
            },
            RunnersViewLevel::Jobs { run_number, .. } => {
                let n = decimal_text(*run_number);
                let mut s = concat_str("Run #", n.as_str());
                s.append(" / Jobs");
                s
            },
            RunnersViewLevel::Logs { job_name, .. } => concat_str(job_name.as_str(), " / Logs"),
        }
    }

    /// Whether this is the log viewer level.
    pub fn is_logs(&self) -> (r: bool)
        ensures
            r == (*self is Logs),
    {
        match self {
            RunnersViewLevel::Logs { .. } => true,
            _ => false,
        }
    }
}

impl Level for RunnersViewLevel {
    open spec fn label(&self) -> Seq<char> {
        runners_label(*self)
    }

    fn breadcrumb_label(&self) -> (r: String) {
        match self {
            RunnersViewLevel::Repositories => String::from_str("Repos"),
            RunnersViewLevel::Runners { repo, .. } => repo.clone(),
            RunnersViewLevel::Runs { runner_name, .. } => match runner_name {
                Some(n) => n.clone(),
                None => String::from_str("Runs"),
            },
            RunnersViewLevel::Jobs { run_number, .. } => {
                let n = decimal_text(*run_number);
                concat_str("#", n.as_str())
            },
            RunnersViewLevel::Logs { job_name, .. } => job_name.clone(),
        }
    }

    fn duplicate(&self) -> (r: Self) {
        match self {
            RunnersViewLevel::Repositories => RunnersViewLevel::Repositories,
            RunnersViewLevel::Runners { owner, repo } => RunnersViewLevel::Runners {
                owner: owner.clone(),
                repo: repo.clone(),
            },
            RunnersViewLevel::Runs { owner, repo, runner_name } => RunnersViewLevel::Runs {
                owner: owner.clone(),
                repo: repo.clone(),
                runner_name: match runner_name {
                    Some(n) => Some(n.clone()),
                    None => None,
                },
            },
            RunnersViewLevel::Jobs { owner, repo, run_id, run_number } => RunnersViewLevel::Jobs {
                owner: owner.clone(),
                repo: repo.clone(),
                run_id: *run_id,
                run_number: *run_number,
            },
            RunnersViewLevel::Logs { owner, repo, run_id, job_id, job_name, job_status, job_conclusion } =>
                RunnersViewLevel::Logs {
                owner: owner.clone(),
                repo: repo.clone(),
                run_id: *run_id,
                job_id: *job_id,
                job_name: job_name.clone(),
                job_status: *job_status,
                job_conclusion: *job_conclusion,
            },
        }
    }
}

/// A node of the runners breadcrumb trail.
#[derive(Clone, Debug)]
pub struct RunnersBreadcrumb {
    pub label: String,
    pub level: RunnersViewLevel,
}

/// Navigation stack of the runners tab.
pub type RunnersNavStack = LevelStack<RunnersViewLevel>;

impl Default for LevelStack<RunnersViewLevel> {
    fn default() -> (r: Self)
        ensures
            r@ == seq![RunnersViewLevel::Repositories],
    {
        LevelStack::new(RunnersViewLevel::Repositories)
    }
}

impl LevelStack<RunnersViewLevel> {
    /// The breadcrumb trail, root first.
    pub fn breadcrumbs(&self) -> (r: Vec<RunnersBreadcrumb>)
        ensures
            r@.len() == capped(self@.len()),
            forall|i: int|
                0 <= i < r@.len() ==> (#[trigger] r@[i]).label@ == runners_label(self@[i]) && r@[i].level
                    == self@[i],
    {
        let n = self.depth();
        let mut out: Vec<RunnersBreadcrumb> = Vec::new();
        let mut i: usize = 0;
        while i < n
            invariant
                n == capped(self@.len()),
                i <= n,
                out@.len() == i,
                forall|j: int|
                    0 <= j < i ==> (#[trigger] out@[j]).label@ == runners_label(self@[j]) && out@[j].level
                        == self@[j],
            decreases n - i,
        {
            let level = self.level_at(i);
            out.push(RunnersBreadcrumb { label: level.breadcrumb_label(), level: level.duplicate() });
            i = i + 1;
        }
        out
    }
}

/// Complete state of the runners tab.
pub struct RunnersTabState {
    pub nav: RunnersNavStack,
    pub repositories: SelectableList<Repository>,
    pub runners: SelectableList<EnrichedRunner>,
    pub runs: SelectableList<WorkflowRun>,
    pub jobs: SelectableList<Job>,
    /// Jobs grouped by name.
    pub job_groups: Vec<JobGroup>,
    /// One entry per attempt of `job_groups`; the jobs cursor indexes this.
    pub job_list_items: Vec<JobListItem>,
    pub log_content: LoadingState<String>,
    pub log_scroll_x: u16,
    pub log_scroll_y: u16,
    /// Selection anchor line in the log viewer (0-indexed).
    pub log_selection_anchor: usize,
    /// Selection cursor line in the log viewer (0-indexed).
    pub log_selection_cursor: usize,
    /// When the runners list was entered (ms since epoch).
    pub runners_view_entered_at: Option<i64>,
    /// When the runners list is next refreshed (ms since epoch).
    pub runners_next_refresh: Option<i64>,
    pub enrichment_loading: bool,
}

/// `t` plus the refresh interval, held at the largest time.
pub open spec fn after_interval(t: i64) -> i64 {
    if t <= i64::MAX - REFRESH_MILLIS { (t + REFRESH_MILLIS) as i64 } else { i64::MAX }
}

impl RunnersTabState {
    /// The log viewer is reset: no content, no scroll, no selection.
    pub open spec fn log_cleared(&self) -> bool {
        self.log_content is Idle && self.log_scroll_x == 0 && self.log_scroll_y == 0
            && self.log_selection_anchor == 0 && self.log_selection_cursor == 0
    }

    /// At the repositories level with every list empty and no refresh scheduled.
    pub fn new() -> (r: Self)
        ensures
            r.nav@ == seq![RunnersViewLevel::Repositories],
            r.repositories.is_cleared() && r.runners.is_cleared() && r.runs.is_cleared() && r.jobs.is_cleared(),
            r.log_cleared(),
            r.runners_view_entered_at is None && r.runners_next_refresh is None,
    {
        RunnersTabState {
            nav: LevelStack::new(RunnersViewLevel::Repositories),
            repositories: SelectableList::new(),
            runners: SelectableList::new(),
            runs: SelectableList::new(),
            jobs: SelectableList::new(),
            job_groups: Vec::new(),
            job_list_items: Vec::new(),
            log_content: LoadingState::Idle,
            log_scroll_x: 0,
            log_scroll_y: 0,
            log_selection_anchor: 0,
            log_selection_cursor: 0,
            runners_view_entered_at: None,
            runners_next_refresh: None,
            enrichment_loading: false,
        }
    }

    /// The current view level.
    pub fn current_view(&self) -> (r: &RunnersViewLevel)
        ensures
            *r == self.nav@.last(),
    {
        self.nav.current()
    }

    fn clear_log(&mut self)
        ensures
            final(self).log_cleared(),
            final(self).nav@ == old(self).nav@,
            final(self).repositories == old(self).repositories,
            final(self).runners == old(self).runners,
            final(self).runs == old(self).runs,
            final(self).jobs == old(self).jobs,
    {
        self.log_content = LoadingState::Idle;
        self.log_scroll_x = 0;
        self.log_scroll_y = 0;
        self.log_selection_anchor = 0;
        self.log_selection_cursor = 0;
    }

    /// Goes back one level and clears the lists of the level left and those
    /// below it.
    /// `after` has the lists of the level left by going back, and of the
    /// levels below it, cleared so that they load afresh.
    pub open spec fn back_cleared(&self, after: Self) -> bool {
        match self.nav@.last() {
            RunnersViewLevel::Repositories => true,
            RunnersViewLevel::Runners { .. } => after.runners.is_cleared() && after.runs.is_cleared()
                && after.jobs.is_cleared() && after.log_content is Idle,
            RunnersViewLevel::Runs { .. } => after.runs.is_cleared() && after.jobs.is_cleared()
                && after.log_content is Idle && after.runners == self.runners,
            RunnersViewLevel::Jobs { .. } => after.jobs.is_cleared() && after.log_content is Idle
                && after.runs == self.runs,
            RunnersViewLevel::Logs { .. } => after.log_cleared() && after.jobs == self.jobs,
        }
    }

    pub fn go_back(&mut self) -> (r: bool)
        ensures
            (final(self).nav@, r) == popped(old(self).nav@),
            r ==> old(self).back_cleared(*final(self)),
            final(self).repositories == old(self).repositories,
    {
        let level = match self.nav.current() {
            RunnersViewLevel::Repositories => 0u8,
            RunnersViewLevel::Runners { .. } => 1u8,
            RunnersViewLevel::Runs { .. } => 2u8,
            RunnersViewLevel::Jobs { .. } => 3u8,
            RunnersViewLevel::Logs { .. } => 4u8,
        };
        let popped = self.nav.pop();
        if popped {
            if level == 1 {
                self.runners = SelectableList::new();
            }
            if level >= 1 && level <= 2 {
                self.runs = SelectableList::new();
            }
            if level >= 1 && level <= 3 {
                self.jobs = SelectableList::new();
                self.log_content = LoadingState::Idle;
            }
            if level == 4 {
                self.clear_log();
            }
        }
        popped
    }

    /// Fills the jobs list, groups the jobs by name at `now`, and flattens the
    /// groups for the cursor.
    pub fn set_jobs_at(&mut self, jobs: Vec<Job>, total_count: u64, now: i64)
        ensures
            final(self).jobs.data is Loaded,
            final(self).jobs.data->Loaded_0.items@.len() == jobs@.len(),
            forall|k: int| 0 <= k < jobs@.len() ==> crate::types::same_job(
                #[trigger] final(self).jobs.data->Loaded_0.items@[k],
                jobs@[k],
            ),
            final(self).jobs.data->Loaded_0.total_count == total_count,
            final(self).jobs.selected == if jobs@.len() > 0 { Some(0usize) } else { None },
            final(self).job_list_items@ == flat_of(final(self).job_groups@),
            crate::grouping::well_grouped(crate::grouping::group_views(final(self).job_groups@), now),
            crate::grouping::jobs_of(crate::grouping::group_views(final(self).job_groups@)) == jobs@.to_multiset(),
    {
        let copy = crate::types::copy_jobs(&jobs);
        self.jobs.set_loaded(copy, total_count);
        self.job_groups = crate::grouping::group_by_name_at(jobs, now);
        self.job_list_items = JobListItem::flatten(self.job_groups.as_slice());
    }

    /// Starts the refresh schedule on entering the runners list at `now`, if
    /// it is not running already.
    pub fn enter_runners_view_at(&mut self, now: i64)
        ensures
            final(self).nav@ == old(self).nav@,
            old(self).runners_view_entered_at is None ==> final(self).runners_view_entered_at == Some(now)
                && final(self).runners_next_refresh == Some(after_interval(now)),
            old(self).runners_view_entered_at is Some ==> final(self).runners_view_entered_at
                == old(self).runners_view_entered_at && final(self).runners_next_refresh
                == old(self).runners_next_refresh,
    {
        if self.runners_view_entered_at.is_none() {
            self.runners_view_entered_at = Some(now);
            let next = if now <= i64::MAX - REFRESH_MILLIS { now + REFRESH_MILLIS } else { i64::MAX };
            self.runners_next_refresh = Some(next);
        }
    }

    /// Stops the refresh schedule (the runners tab was left).
    pub fn leave_runners_view(&mut self)
        ensures
            final(self).repositories == old(self).repositories && final(self).runners == old(self).runners,
            final(self).runs == old(self).runs && final(self).jobs == old(self).jobs,
            final(self).log_content == old(self).log_content,
            final(self).log_scroll_x == old(self).log_scroll_x && final(self).log_scroll_y == old(self).log_scroll_y,
            final(self).log_selection_anchor == old(self).log_selection_anchor,
            final(self).log_selection_cursor == old(self).log_selection_cursor,
            final(self).nav@ == old(self).nav@,
            final(self).runners_view_entered_at is None && final(self).runners_next_refresh is None,
    {
        self.runners_view_entered_at = None;
        self.runners_next_refresh = None;
    }

    /// On a tick at `now`: when the runners list is current and its refresh
    /// time has come, marks the list loading for a fetch that bypasses the
    /// cache, schedules the next refresh, and returns true.
    pub fn refresh_due_at(&mut self, now: i64) -> (r: bool)
        ensures
            r == (old(self).nav@.last() is Runners && old(self).runners_next_refresh is Some && now >= old(self).runners_next_refresh->Some_0),
            r ==> final(self).runners.data is Loading && final(self).runners_next_refresh == Some(after_interval(now)),
            !r ==> final(self).runners == old(self).runners && final(self).runners_next_refresh
                == old(self).runners_next_refresh,
            final(self).nav@ == old(self).nav@,
    {
        let is_runners = match self.nav.current() {
            RunnersViewLevel::Runners { .. } => true,
            _ => false,
        };
        if !is_runners {
            return false;
        }
        match self.runners_next_refresh {
            Some(t) => {
                if now >= t {
                    self.runners.set_loading();
                    let next = if now <= i64::MAX - REFRESH_MILLIS { now + REFRESH_MILLIS } else { i64::MAX };
                    self.runners_next_refresh = Some(next);
                    true
                } else {
                    false
                }
            },
            None => false,
        }
    }

    /// `after` is `self` with the current level's list cursor stepped up or
    /// down (see `stepped`); every other list is as it was.
    pub open spec fn lists_stepped(&self, after: Self, up: bool) -> bool {
        &&& after.repositories.data == self.repositories.data && after.repositories.filter == self.repositories.filter
        &&& after.repositories.selected == crate::lists::stepped(self.repositories, up, self.nav@.last() is Repositories)
        &&& after.runners.data == self.runners.data && after.runners.filter == self.runners.filter
        &&& after.runners.selected == crate::lists::stepped(self.runners, up, self.nav@.last() is Runners)
        &&& after.runs.data == self.runs.data && after.runs.filter == self.runs.filter
        &&& after.runs.selected == crate::lists::stepped(self.runs, up, self.nav@.last() is Runs)
        &&& after.jobs.data == self.jobs.data && after.jobs.filter == self.jobs.filter
        &&& after.jobs.selected == crate::lists::stepped(self.jobs, up, self.nav@.last() is Jobs)
    }

    /// Up key: moves the current list's cursor, or scrolls the log up.
    pub fn select_prev(&mut self)
        ensures
            old(self).lists_stepped(*final(self), true),
            final(self).log_selection_anchor == old(self).log_selection_anchor,
            final(self).log_selection_cursor == old(self).log_selection_cursor,
            final(self).log_content == old(self).log_content,
            !(old(self).nav@.last() is Logs) ==> final(self).log_scroll_y == old(self).log_scroll_y,
            final(self).nav@ == old(self).nav@,
            old(self).nav@.last() is Logs ==> final(self).log_scroll_y == if old(self).log_scroll_y > 0 {
                (old(self).log_scroll_y - 1) as u16
            } else {
                0
            },
    {
        match self.nav.current() {
                        RunnersViewLevel::Repositories => self.repositories.select_prev(),
            RunnersViewLevel::Runners { .. } => self.runners.select_prev(),
            RunnersViewLevel::Runs { .. } => self.runs.select_prev(),
            RunnersViewLevel::Jobs { .. } => self.jobs.select_prev(),
            RunnersViewLevel::Logs { .. } => {
                self.log_scroll_y = if self.log_scroll_y > 0 { self.log_scroll_y - 1 } else { 0 };
            },
        }
    }

    /// Down key: moves the current list's cursor, or scrolls the log down.
    pub fn select_next(&mut self)
        ensures
            old(self).lists_stepped(*final(self), false),
            final(self).log_selection_anchor == old(self).log_selection_anchor,
            final(self).log_selection_cursor == old(self).log_selection_cursor,
            final(self).log_content == old(self).log_content,
            !(old(self).nav@.last() is Logs) ==> final(self).log_scroll_y == old(self).log_scroll_y,
            final(self).nav@ == old(self).nav@,
            old(self).nav@.last() is Logs ==> final(self).log_scroll_y == if old(self).log_scroll_y < u16::MAX {
                (old(self).log_scroll_y + 1) as u16
            } else {
                u16::MAX
            },
    {
        match self.nav.current() {
                        RunnersViewLevel::Repositories => self.repositories.select_next(),
            RunnersViewLevel::Runners { .. } => self.runners.select_next(),
            RunnersViewLevel::Runs { .. } => self.runs.select_next(),
            RunnersViewLevel::Jobs { .. } => self.jobs.select_next(),
            RunnersViewLevel::Logs { .. } => {
                self.log_scroll_y = self.log_scroll_y.saturating_add(1);
            },
        }
    }

    /// Left key: scrolls the log left.
    pub fn scroll_left(&mut self)
        ensures
            !(old(self).nav@.last() is Logs) ==> *final(self) == *old(self),
            final(self).nav@ == old(self).nav@,
            old(self).nav@.last() is Logs ==> final(self).log_scroll_x == if old(self).log_scroll_x >= SCROLL_COLUMNS {
                (old(self).log_scroll_x - SCROLL_COLUMNS) as u16
            } else {
                0
            },
            !(old(self).nav@.last() is Logs) ==> final(self).log_scroll_x == old(self).log_scroll_x,
    {
        if self.nav.current().is_logs() {
            self.log_scroll_x = self.log_scroll_x.saturating_sub(SCROLL_COLUMNS);
        }
    }

    /// Right key: scrolls the log right.
    pub fn scroll_right(&mut self)
        ensures
            !(old(self).nav@.last() is Logs) ==> *final(self) == *old(self),
            final(self).nav@ == old(self).nav@,
            old(self).nav@.last() is Logs ==> final(self).log_scroll_x == if old(self).log_scroll_x as int + SCROLL_COLUMNS
                <= u16::MAX {
                (old(self).log_scroll_x + SCROLL_COLUMNS) as u16
            } else {
                u16::MAX
            },
            !(old(self).nav@.last() is Logs) ==> final(self).log_scroll_x == old(self).log_scroll_x,
    {
        if self.nav.current().is_logs() {
            self.log_scroll_x = self.log_scroll_x.saturating_add(SCROLL_COLUMNS);
        }
    }

    /// Page Up: scrolls the log up a page.
    pub fn page_up(&mut self)
        ensures
            !(old(self).nav@.last() is Logs) ==> *final(self) == *old(self),
            final(self).nav@ == old(self).nav@,
            old(self).nav@.last() is Logs ==> final(self).log_scroll_y == if old(self).log_scroll_y >= 20 {
                (old(self).log_scroll_y - 20) as u16
            } else {
                0
            },
            !(old(self).nav@.last() is Logs) ==> final(self).log_scroll_y == old(self).log_scroll_y,
    {
        if self.nav.current().is_logs() {
            self.log_scroll_y = self.log_scroll_y.saturating_sub(20);
        }
    }

    /// Page Down: scrolls the log down a page.
    pub fn page_down(&mut self)
        ensures
            !(old(self).nav@.last() is Logs) ==> *final(self) == *old(self),
            final(self).nav@ == old(self).nav@,
            old(self).nav@.last() is Logs ==> final(self).log_scroll_y == if old(self).log_scroll_y as int + 20 <= u16::MAX {
                (old(self).log_scroll_y + 20) as u16
            } else {
                u16::MAX
            },
            !(old(self).nav@.last() is Logs) ==> final(self).log_scroll_y == old(self).log_scroll_y,
    {
        if self.nav.current().is_logs() {
            self.log_scroll_y = self.log_scroll_y.saturating_add(20);
        }
    }

    /// Home: scrolls the log to its start.
    pub fn scroll_to_start(&mut self)
        ensures
            !(old(self).nav@.last() is Logs) ==> *final(self) == *old(self),
            final(self).nav@ == old(self).nav@,
            old(self).nav@.last() is Logs ==> final(self).log_scroll_y == 0 && final(self).log_scroll_x == 0,
            !(old(self).nav@.last() is Logs) ==> final(self).log_scroll_y == old(self).log_scroll_y
                && final(self).log_scroll_x == old(self).log_scroll_x,
    {
        if self.nav.current().is_logs() {
            self.log_scroll_y = 0;
            self.log_scroll_x = 0;
        }
    }

    /// End: scrolls the loaded log so its last ten lines show.
    pub fn scroll_to_end(&mut self)
        ensures
            !(old(self).nav@.last() is Logs) ==> *final(self) == *old(self),
            final(self).nav@ == old(self).nav@,
            old(self).nav@.last() is Logs && old(self).log_content is Loaded ==> final(self).log_scroll_y as int == {
                let n = if log_lines(old(self).log_content) > u16::MAX { u16::MAX as int } else { log_lines(old(self).log_content) as int };
                if n >= 10 { n - 10 } else { 0 }
            },
            !(old(self).nav@.last() is Logs && old(self).log_content is Loaded) ==> final(self).log_scroll_y
                == old(self).log_scroll_y,
    {
        if self.nav.current().is_logs() {
            match &self.log_content {
                LoadingState::Loaded(logs) => {
                    let n = line_count(logs.as_str());
                    let n16: u16 = if n > 65535 { 65535 } else { n as u16 };
                    self.log_scroll_y = n16.saturating_sub(10);
                },
                _ => {},
            }
        }
    }

    /// Clears the current level's data so that it loads afresh.
    pub fn clear_current(&mut self)
        ensures
            final(self).nav@ == old(self).nav@,
            match old(self).nav@.last() {
                RunnersViewLevel::Repositories => final(self).repositories.is_cleared(),
                RunnersViewLevel::Runners { .. } => final(self).runners.is_cleared(),
                RunnersViewLevel::Runs { .. } => final(self).runs.is_cleared(),
                RunnersViewLevel::Jobs { .. } => final(self).jobs.is_cleared(),
                RunnersViewLevel::Logs { .. } => final(self).log_cleared(),
            },
    {
        match self.nav.current() {
            RunnersViewLevel::Repositories => self.repositories = SelectableList::new(),
            RunnersViewLevel::Runners { .. } => self.runners = SelectableList::new(),
            RunnersViewLevel::Runs { .. } => self.runs = SelectableList::new(),
            RunnersViewLevel::Jobs { .. } => self.jobs = SelectableList::new(),
            RunnersViewLevel::Logs { .. } => self.clear_log(),
        }
    }

    /// The selected lines, as (first, last), whichever way they were selected.
    pub fn log_selection_range(&self) -> (r: (usize, usize))
        ensures
            r.0 <= r.1,
            r.0 == if self.log_selection_anchor <= self.log_selection_cursor { self.log_selection_anchor } else { self.log_selection_cursor },
            r.1 == if self.log_selection_anchor <= self.log_selection_cursor { self.log_selection_cursor } else { self.log_selection_anchor },
    {
        log::selection_range(self.log_selection_anchor, self.log_selection_cursor)
    }

    /// Moves the selection cursor up a line; without `extend` the anchor follows.
    pub fn selection_up(&mut self, extend: bool)
        ensures
            final(self).nav@ == old(self).nav@,
            old(self).log_content is Loaded ==> (final(self).log_selection_anchor, final(self).log_selection_cursor)
                == moved(old(self).log_selection_anchor, up_cursor(old(self).log_selection_cursor), extend),
            !(old(self).log_content is Loaded) ==> final(self).log_selection_anchor == old(self).log_selection_anchor
                && final(self).log_selection_cursor == old(self).log_selection_cursor,
            final(self).log_scroll_y == old(self).log_scroll_y,
    {
        if self.log_content.is_loaded() {
            let (a, c) = log::selection_up(self.log_selection_anchor, self.log_selection_cursor, extend);
            self.log_selection_anchor = a;
            self.log_selection_cursor = c;
        }
    }

    /// Moves the selection cursor down a line, staying on the last.
    pub fn selection_down(&mut self, extend: bool)
        ensures
            final(self).nav@ == old(self).nav@,
            old(self).log_content is Loaded ==> (final(self).log_selection_anchor, final(self).log_selection_cursor)
                == moved(old(self).log_selection_anchor, down_cursor(old(self).log_selection_cursor, log_lines(old(self).log_content)), extend),
            !(old(self).log_content is Loaded) ==> final(self).log_selection_anchor == old(self).log_selection_anchor
                && final(self).log_selection_cursor == old(self).log_selection_cursor,
            final(self).log_scroll_y == old(self).log_scroll_y,
    {
        match &self.log_content {
            LoadingState::Loaded(logs) => {
                let n = line_count(logs.as_str());
                let (a, c) = log::selection_down(self.log_selection_anchor, self.log_selection_cursor, n, extend);
                self.log_selection_anchor = a;
                self.log_selection_cursor = c;
            },
            _ => {},
        }
    }

    /// Moves the selection cursor to the first line.
    pub fn selection_to_start(&mut self, extend: bool)
        ensures
            final(self).log_scroll_y == old(self).log_scroll_y,
            final(self).nav@ == old(self).nav@,
            final(self).nav@ == old(self).nav@,
            (final(self).log_selection_anchor, final(self).log_selection_cursor) == moved(
                old(self).log_selection_anchor,
                0,
                extend,
            ),
    {
        let (a, c) = log::selection_to(self.log_selection_anchor, 0, extend);
        self.log_selection_anchor = a;
        self.log_selection_cursor = c;
    }

    /// Moves the selection cursor to the last line of the loaded log.
    pub fn selection_to_end(&mut self, extend: bool)
        ensures
            final(self).log_scroll_y == old(self).log_scroll_y,
            final(self).nav@ == old(self).nav@,
            final(self).nav@ == old(self).nav@,
            old(self).log_content is Loaded ==> (final(self).log_selection_anchor, final(self).log_selection_cursor)
                == moved(old(self).log_selection_anchor, last_line(log_lines(old(self).log_content)), extend),
            !(old(self).log_content is Loaded) ==> final(self).log_selection_anchor == old(self).log_selection_anchor
                && final(self).log_selection_cursor == old(self).log_selection_cursor,
    {
        match &self.log_content {
            LoadingState::Loaded(logs) => {
                let n = line_count(logs.as_str());
                let last = if n > 0 { n - 1 } else { 0 };
                let (a, c) = log::selection_to(self.log_selection_anchor, last, extend);
                self.log_selection_anchor = a;
                self.log_selection_cursor = c;
            },
            _ => {},
        }
    }

    /// Moves the selection cursor up a page, stopping at the first line.
    pub fn selection_page_up(&mut self, extend: bool)
        ensures
            final(self).log_scroll_y == old(self).log_scroll_y,
            final(self).nav@ == old(self).nav@,
            final(self).nav@ == old(self).nav@,
            old(self).log_content is Loaded ==> (final(self).log_selection_anchor, final(self).log_selection_cursor)
                == moved(
                old(self).log_selection_anchor,
                if old(self).log_selection_cursor >= PAGE_LINES { (old(self).log_selection_cursor - PAGE_LINES) as usize } else { 0usize },
                extend,
            ),
            !(old(self).log_content is Loaded) ==> final(self).log_selection_anchor == old(self).log_selection_anchor
                && final(self).log_selection_cursor == old(self).log_selection_cursor,
    {
        if self.log_content.is_loaded() {
            let (a, c) = log::selection_page_up(self.log_selection_anchor, self.log_selection_cursor, PAGE_LINES, extend);
            self.log_selection_anchor = a;
            self.log_selection_cursor = c;
        }
    }

    /// Moves the selection cursor down a page, stopping at the last line.
    pub fn selection_page_down(&mut self, extend: bool)
        ensures
            final(self).log_scroll_y == old(self).log_scroll_y,
            final(self).nav@ == old(self).nav@,
            final(self).nav@ == old(self).nav@,
            old(self).log_content is Loaded ==> (final(self).log_selection_anchor, final(self).log_selection_cursor)
                == moved(
                old(self).log_selection_anchor,
                if old(self).log_selection_cursor + PAGE_LINES <= last_line(log_lines(old(self).log_content)) {
                    (old(self).log_selection_cursor + PAGE_LINES) as usize
                } else {
                    last_line(log_lines(old(self).log_content))
                },
                extend,
            ),
            !(old(self).log_content is Loaded) ==> final(self).log_selection_anchor == old(self).log_selection_anchor
                && final(self).log_selection_cursor == old(self).log_selection_cursor,
    {
        match &self.log_content {
            LoadingState::Loaded(logs) => {
                let n = line_count(logs.as_str());
                let (a, c) = log::selection_page_down(self.log_selection_anchor, self.log_selection_cursor, n, PAGE_LINES, extend);
                self.log_selection_anchor = a;
                self.log_selection_cursor = c;
            },
            _ => {},
        }
    }

}

} // verus!
