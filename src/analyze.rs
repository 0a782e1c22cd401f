//! Saved log excerpts ("analysis sessions") with the context needed to jump
//! back to the exact selection, newest first.

use vstd::prelude::*;
use vstd::string::*;
use crate::clock::{self, Timestamp};
use crate::favorites::str_eq;
use crate::log::{excerpt, excerpt_of, line_count, lines_of};
use crate::text::{decimal, hex4, push_decimal, push_hex4, push_signed_decimal, signed_decimal};
use crate::types::{RunConclusion, RunStatus};

verus! {

/// Tab from which an excerpt was saved.
#[derive(Clone, Copy, Debug, PartialEq, Eq, Structural)]
pub enum SourceTab {
    Workflows,
    Runners,
}

/// Where an excerpt came from, to return to its log and selection.
#[derive(Clone, Debug)]
pub struct NavigationContext {
    pub source_tab: SourceTab,
    pub owner: String,
    pub repo: String,
    /// Workflow id (workflows tab only).
    pub workflow_id: Option<u64>,
    pub workflow_name: Option<String>,
    pub run_id: u64,
    pub run_number: u64,
    pub job_id: u64,
    pub job_name: String,
    pub job_status: RunStatus,
    pub job_conclusion: Option<RunConclusion>,
    /// Line to scroll to (the selection start).
    pub scroll_to_line: usize,
    pub selection_anchor: usize,
    pub selection_cursor: usize,
}

/// What triggered the run.
#[derive(Clone, Debug)]
pub struct RunMetadata {
    pub pr_number: Option<u64>,
    pub branch_name: Option<String>,
    /// Commit SHA (short form).
    pub commit_sha: String,
    pub author: Option<String>,
    pub runner_name: Option<String>,
    pub runner_labels: Vec<String>,
}

/// A saved excerpt of a log with its context.
#[derive(Clone, Debug)]
pub struct AnalysisSession {
    pub id: String,
    pub title: String,
    pub notes: Option<String>,
    pub tags: Vec<String>,
    /// Creation time, in milliseconds since the epoch.
    pub created_at: i64,
    /// Last change, in milliseconds since the epoch.
    pub updated_at: i64,
    pub nav_context: NavigationContext,
    pub run_metadata: RunMetadata,
    /// Link to the job's log on the provider's site.
    pub github_url: String,
    /// The saved lines.
    pub log_excerpt: String,
    /// Number of lines of the whole log.
    pub total_log_lines: usize,
    /// First saved line (0-indexed).
    pub excerpt_start_line: usize,
    /// Last saved line (0-indexed).
    pub excerpt_end_line: usize,
}

/// Seconds since the epoch of a millisecond time (rounded down).
pub open spec fn seconds_of(millis: i64) -> int {
    millis as int / 1000
}

/// The identifier of a session created at `now`: the second and a 16-bit
/// suffix in hexadecimal.
pub open spec fn session_id(now: Timestamp) -> Seq<char> {
    signed_decimal(seconds_of(now.millis)) + seq!['-'] + hex4((now.subsec_nanos % 65536) as u16)
}

/// The title of a session: job name, line count and repository.
pub open spec fn session_title(job_name: Seq<char>, lines: nat, repo: Seq<char>) -> Seq<char> {
    job_name + " - "@ + decimal(lines) + " lines from "@ + repo
}

/// Seconds since the epoch of a millisecond time, rounded down.
pub fn seconds(millis: i64) -> (r: i64)
    ensures
        r == seconds_of(millis),
{
    if millis >= 0 {
        millis / 1000
    } else {
        let m = -(millis + 1);
        let q = m / 1000;
        assert(-q - 1 == millis as int / 1000) by (nonlinear_arith)
            requires
                m == -(millis + 1),
                q == m / 1000,
                millis < 0,
        {
        }
        -q - 1
    }
}

/// The low 16 bits of a nanosecond count.
pub fn low_bits(nanos: u32) -> (r: u16)
    ensures
        r == nanos % 65536,
{
    (nanos % 65536) as u16
}

/// A 16-bit value drawn from the clock's sub-second nanoseconds.
pub fn rand_u16() -> (r: u16) {
    low_bits(clock::now().subsec_nanos)
}

impl AnalysisSession {
    /// A session created at `now`, titled after the job, line count and repository.
    pub fn new_at(
        nav_context: NavigationContext,
        run_metadata: RunMetadata,
        github_url: String,
        log_excerpt: String,
        total_log_lines: usize,
        excerpt_start_line: usize,
        excerpt_end_line: usize,
        now: Timestamp,
    ) -> (r: Self)
        requires
            excerpt_start_line <= excerpt_end_line < usize::MAX,
        ensures
            r.id@ == session_id(now),
            r.title@ == session_title(
                nav_context.job_name@,
                (excerpt_end_line - excerpt_start_line + 1) as nat,
                nav_context.repo@,
            ),
            r.notes is None,
            r.tags@.len() == 0,
            r.created_at == now.millis && r.updated_at == now.millis,
            r.nav_context == nav_context,
            r.run_metadata == run_metadata,
            r.github_url == github_url,
            r.log_excerpt == log_excerpt,
            r.total_log_lines == total_log_lines,
            r.excerpt_start_line == excerpt_start_line,
            r.excerpt_end_line == excerpt_end_line,
    {
        let line_count = excerpt_end_line - excerpt_start_line + 1;
        let mut title = nav_context.job_name.clone();
        title.append(" - ");
        push_decimal(&mut title, line_count as u64);
        title.append(" lines from ");
        title.append(nav_context.repo.as_str());
        let secs = seconds(now.millis);
        let mut id = String::new();
        push_signed_decimal(&mut id, secs);
        id.push('-');
        push_hex4(&mut id, low_bits(now.subsec_nanos));
        assert(id@ =~= session_id(now));
        assert(title@ =~= session_title(
            nav_context.job_name@,
            (excerpt_end_line - excerpt_start_line + 1) as nat,
            nav_context.repo@,
        ));
        AnalysisSession {
            id,
            title,
            notes: None,
            tags: Vec::new(),
            created_at: now.millis,
            updated_at: now.millis,
            nav_context,
            run_metadata,
            github_url,
            log_excerpt,
            total_log_lines,
            excerpt_start_line,
            excerpt_end_line,
        }
    }

    /// A session created now.
    pub fn new(
        nav_context: NavigationContext,
        run_metadata: RunMetadata,
        github_url: String,
        log_excerpt: String,
        total_log_lines: usize,
        excerpt_start_line: usize,
        excerpt_end_line: usize,
    ) -> (r: Self)
        requires
            excerpt_start_line <= excerpt_end_line < usize::MAX,
        ensures
            r.nav_context == nav_context,
            r.log_excerpt == log_excerpt,
            r.excerpt_start_line == excerpt_start_line,
            r.excerpt_end_line == excerpt_end_line,
            r.title@ == session_title(
                nav_context.job_name@,
                (excerpt_end_line - excerpt_start_line + 1) as nat,
                nav_context.repo@,
            ),
    {
        AnalysisSession::new_at(
            nav_context,
            run_metadata,
            github_url,
            log_excerpt,
            total_log_lines,
            excerpt_start_line,
            excerpt_end_line,
            clock::now(),
        )
    }
}

/// View of the analyze tab.
#[derive(Clone, Debug, PartialEq, Eq)]
pub enum AnalyzeViewLevel {
    /// The list of sessions.
    List,
    /// One session in detail.
    Detail { session_id: String },
}

/// Whether two inclusive line ranges share a line.
pub open spec fn overlap(start1: usize, end1: usize, start2: usize, end2: usize) -> bool {
    start1 <= end2 && start2 <= end1
}

/// Whether session `s` was saved from the given job and run, over lines that
/// share one with `start..=end`.
pub open spec fn overlaps_session(s: AnalysisSession, job_id: u64, run_id: u64, start: usize, end: usize) -> bool {
    s.nav_context.job_id == job_id && s.nav_context.run_id == run_id && overlap(
        start,
        end,
        s.excerpt_start_line,
        s.excerpt_end_line,
    )
}

/// Whether `k` is the first session saved from this job and run whose lines
/// overlap `start..=end`.
pub open spec fn first_overlap(sessions: Seq<AnalysisSession>, job_id: u64, run_id: u64, start: usize, end: usize, k: int) -> bool {
    0 <= k < sessions.len() && overlaps_session(sessions[k], job_id, run_id, start, end) && forall|j: int|
        0 <= j < k ==> !overlaps_session(#[trigger] sessions[j], job_id, run_id, start, end)
}

/// Whether some session saved from this job and run overlaps `start..=end`.
pub open spec fn has_overlap(sessions: Seq<AnalysisSession>, job_id: u64, run_id: u64, start: usize, end: usize) -> bool {
    exists|k: int| first_overlap(sessions, job_id, run_id, start, end, k)
}

/// The first session saved from this job and run whose lines overlap
/// `start..=end` (meaningful when there is one).
pub open spec fn first_overlap_index(sessions: Seq<AnalysisSession>, job_id: u64, run_id: u64, start: usize, end: usize) -> int {
    choose|k: int| first_overlap(sessions, job_id, run_id, start, end, k)
}

/// There is at most one first overlapping session.
pub proof fn lemma_first_overlap_unique(sessions: Seq<AnalysisSession>, job_id: u64, run_id: u64, start: usize, end: usize, k: int)
    requires
        first_overlap(sessions, job_id, run_id, start, end, k),
    ensures
        first_overlap_index(sessions, job_id, run_id, start, end) == k,
{
    let c = first_overlap_index(sessions, job_id, run_id, start, end);
    assert(first_overlap(sessions, job_id, run_id, start, end, c));
    if c < k {
        assert(!overlaps_session(sessions[c], job_id, run_id, start, end));
    } else if c > k {
        assert(!overlaps_session(sessions[k], job_id, run_id, start, end));
    }
}

/// State of the analyze tab.
pub struct AnalyzeTabState {
    pub view: AnalyzeViewLevel,
    /// Saved sessions, newest first.
    pub sessions: Vec<AnalysisSession>,
    /// Selected session.
    pub selected: Option<usize>,
    pub detail_scroll_y: u16,
}

impl AnalyzeTabState {
    /// No sessions, showing the list.
    pub fn new() -> (r: Self)
        ensures
            r.view == AnalyzeViewLevel::List,
            r.sessions@.len() == 0,
            r.selected is None,
            r.detail_scroll_y == 0,
    {
        AnalyzeTabState { view: AnalyzeViewLevel::List, sessions: Vec::new(), selected: None, detail_scroll_y: 0 }
    }

    /// The selected index.
    pub fn selected(&self) -> (r: Option<usize>)
        ensures
            r == self.selected,
    {
        self.selected
    }

    /// The selected session.
    pub fn selected_session(&self) -> (r: Option<&AnalysisSession>)
        ensures
            match self.selected {
                Some(i) => if i < self.sessions@.len() { r == Some(&self.sessions@[i as int]) } else { r is None },
                None => r is None,
            },
    {
        match self.selected {
            Some(i) => if i < self.sessions.len() {
                Some(&self.sessions[i])
            } else {
                None
            },
            None => None,
        }
    }

    /// Selects the next session, staying at the last.
    pub fn select_next(&mut self)
        ensures
            final(self).sessions@ == old(self).sessions@,
            old(self).sessions@.len() == 0 ==> final(self).selected == old(self).selected,
            old(self).sessions@.len() > 0 ==> final(self).selected == Some(match old(self).selected {
                Some(i) => if i >= old(self).sessions@.len() - 1 { i } else { (i + 1) as usize },
                None => 0,
            }),
    {
        if self.sessions.len() == 0 {
            return;
        }
        let i = match self.selected {
            Some(i) => if i >= self.sessions.len() - 1 { i } else { i + 1 },
            None => 0,
        };
        self.selected = Some(i);
    }

    /// Selects the previous session, staying at the first.
    pub fn select_prev(&mut self)
        ensures
            final(self).sessions@ == old(self).sessions@,
            old(self).sessions@.len() == 0 ==> final(self).selected == old(self).selected,
            old(self).sessions@.len() > 0 ==> final(self).selected == Some(match old(self).selected {
                Some(i) => if i == 0 { 0 } else { (i - 1) as usize },
                None => 0,
            }),
    {
        if self.sessions.len() == 0 {
            return;
        }
        let i = match self.selected {
            Some(i) => if i == 0 { 0 } else { i - 1 },
            None => 0,
        };
        self.selected = Some(i);
    }

    /// Selects the first session, or nothing when there is none.
    pub fn reset_selection(&mut self)
        ensures
            final(self).sessions@ == old(self).sessions@,
            final(self).view == old(self).view,
            final(self).selected == if old(self).sessions@.len() == 0 { None } else { Some(0usize) },
    {
        if self.sessions.len() == 0 {
            self.selected = None;
        } else {
            self.selected = Some(0);
        }
    }

    /// Adds a session in front (newest first) and selects it.
    pub fn add_session(&mut self, session: AnalysisSession)
        ensures
            final(self).sessions@ == seq![session] + old(self).sessions@,
            final(self).selected == Some(0usize),
            final(self).view == old(self).view,
    {
        let ghost s = session;
        self.sessions.insert(0, session);
        assert(self.sessions@ =~= seq![s] + old(self).sessions@);
        self.reset_selection();
    }

    /// Removes the sessions with identifier `id`.
    pub fn delete_session(&mut self, id: &str)
        ensures
            final(self).sessions@ == old(self).sessions@.filter(|s: AnalysisSession| s.id@ != id@),
    {
        let mut kept: Vec<AnalysisSession> = Vec::new();
        let mut rest: Vec<AnalysisSession> = Vec::new();
        std::mem::swap(&mut self.sessions, &mut rest);
        let ghost all = rest@;
        let total = rest.len();
        let mut i: usize = 0;
        while rest.len() > 0
            invariant
                all.len() == total,
                rest@ == all.subrange(i as int, all.len() as int),
                i <= all.len(),
                kept@ == all.subrange(0, i as int).filter(|s: AnalysisSession| s.id@ != id@),
            decreases rest@.len(),
        {
            let s = rest.remove(0);
            proof {
                let pre = all.subrange(0, i as int);
                assert(all.subrange(0, i + 1) =~= pre.push(s));
                pre.lemma_filter_push(s, |s: AnalysisSession| s.id@ != id@);
            }
            if !str_eq(s.id.as_str(), id) {
                kept.push(s);
            }
            i = i + 1;
        }
        assert(all.subrange(0, i as int) =~= all);
        assert(all == old(self).sessions@);
        self.sessions = kept;
        match self.selected {
            Some(sel) => if sel >= self.sessions.len() {
                self.reset_selection();
            },
            None => {},
        }
    }

    /// The first session with identifier `id`.
    pub fn find_session(&self, id: &str) -> (r: Option<&AnalysisSession>)
        ensures
            match r {
                Some(s) => exists|k: int|
                    0 <= k < self.sessions@.len() && *s == self.sessions@[k] && s.id@ == id@ && forall|j: int|
                        0 <= j < k ==> (#[trigger] self.sessions@[j]).id@ != id@,
                None => forall|j: int| 0 <= j < self.sessions@.len() ==> (#[trigger] self.sessions@[j]).id@ != id@,
            },
    {
        let mut i: usize = 0;
        while i < self.sessions.len()
            invariant
                i <= self.sessions@.len(),
                forall|j: int| 0 <= j < i ==> (#[trigger] self.sessions@[j]).id@ != id@,
            decreases self.sessions@.len() - i,
        {
            if str_eq(self.sessions[i].id.as_str(), id) {
                return Some(&self.sessions[i]);
            }
            i = i + 1;
        }
        None
    }

    /// Index of the first session saved from this job and run whose lines
    /// overlap `start..=end`.
    pub fn find_overlapping_index(&self, job_id: u64, run_id: u64, start_line: usize, end_line: usize) -> (r: Option<usize>)
        ensures
            match r {
                Some(k) => k < self.sessions@.len() && overlaps_session(self.sessions@[k as int], job_id, run_id, start_line, end_line)
                    && forall|j: int| 0 <= j < k ==> !overlaps_session(#[trigger] self.sessions@[j], job_id, run_id, start_line, end_line),
                None => forall|j: int|
                    0 <= j < self.sessions@.len() ==> !overlaps_session(#[trigger] self.sessions@[j], job_id, run_id, start_line, end_line),
            },
    {
        let mut i: usize = 0;
        while i < self.sessions.len()
            invariant
                i <= self.sessions@.len(),
                forall|j: int| 0 <= j < i ==> !overlaps_session(#[trigger] self.sessions@[j], job_id, run_id, start_line, end_line),
            decreases self.sessions@.len() - i,
        {
            let s = &self.sessions[i];
            if s.nav_context.job_id == job_id && s.nav_context.run_id == run_id && Self::ranges_overlap(
                start_line,
                end_line,
                s.excerpt_start_line,
                s.excerpt_end_line,
            ) {
                return Some(i);
            }
            i = i + 1;
        }
        None
    }

    /// The first session saved from this job and run whose lines overlap
    /// `start..=end`.
    pub fn find_overlapping(&self, job_id: u64, run_id: u64, start_line: usize, end_line: usize) -> (r: Option<&AnalysisSession>)
        ensures
            match r {
                Some(s) => exists|k: int|
                    0 <= k < self.sessions@.len() && *s == self.sessions@[k] && overlaps_session(*s, job_id, run_id, start_line, end_line)
                        && forall|j: int| 0 <= j < k ==> !overlaps_session(#[trigger] self.sessions@[j], job_id, run_id, start_line, end_line),
                None => forall|j: int|
                    0 <= j < self.sessions@.len() ==> !overlaps_session(#[trigger] self.sessions@[j], job_id, run_id, start_line, end_line),
            },
    {
        match self.find_overlapping_index(job_id, run_id, start_line, end_line) {
            Some(k) => Some(&self.sessions[k]),
            None => None,
        }
    }

    /// Whether two inclusive line ranges share a line.
    pub fn ranges_overlap(start1: usize, end1: usize, start2: usize, end2: usize) -> (r: bool)
        ensures
            r == overlap(start1, end1, start2, end2),
    {
        start1 <= end2 && start2 <= end1
    }

    /// The line ranges and identifiers of the sessions saved from a job and run.
    pub fn get_session_lines(&self, job_id: u64, run_id: u64) -> (r: Vec<(usize, usize, String)>)
        ensures
            r@.len() == self.sessions@.filter(|s: AnalysisSession| s.nav_context.job_id == job_id && s.nav_context.run_id == run_id).len(),
            forall|k: int| 0 <= k < r@.len() ==> {
                let s = self.sessions@.filter(|s: AnalysisSession| s.nav_context.job_id == job_id && s.nav_context.run_id == run_id)[k];
                (#[trigger] r@[k]).0 == s.excerpt_start_line && r@[k].1 == s.excerpt_end_line && r@[k].2 == s.id
            },
    {
        let ghost pred = |s: AnalysisSession| s.nav_context.job_id == job_id && s.nav_context.run_id == run_id;
        let mut out: Vec<(usize, usize, String)> = Vec::new();
        let mut i: usize = 0;
        while i < self.sessions.len()
            invariant
                i <= self.sessions@.len(),
                pred == (|s: AnalysisSession| s.nav_context.job_id == job_id && s.nav_context.run_id == run_id),
                out@.len() == self.sessions@.subrange(0, i as int).filter(pred).len(),
                forall|k: int| 0 <= k < out@.len() ==> {
                    let s = self.sessions@.subrange(0, i as int).filter(pred)[k];
                    (#[trigger] out@[k]).0 == s.excerpt_start_line && out@[k].1 == s.excerpt_end_line && out@[k].2 == s.id
                },
            decreases self.sessions@.len() - i,
        {
            let s = &self.sessions[i];
            proof {
                let pre = self.sessions@.subrange(0, i as int);
                assert(self.sessions@.subrange(0, i + 1) =~= pre.push(*s));
                pre.lemma_filter_push(*s, pred);
            }
            if s.nav_context.job_id == job_id && s.nav_context.run_id == run_id {
                out.push((s.excerpt_start_line, s.excerpt_end_line, s.id.clone()));
            }
            i = i + 1;
        }
        assert(self.sessions@.subrange(0, i as int) =~= self.sessions@);
        out
    }

    /// Shows the first session with identifier `session_id` in detail and
    /// selects it; does nothing when there is none.
    pub fn enter_detail_by_id(&mut self, session_id: &str)
        ensures
            final(self).sessions@ == old(self).sessions@,
            (exists|k: int| 0 <= k < old(self).sessions@.len() && (#[trigger] old(self).sessions@[k]).id@ == session_id@)
                ==> final(self).view is Detail && final(self).view->session_id@ == session_id@
                && final(self).detail_scroll_y == 0 && final(self).selected is Some && final(self).selected->Some_0
                < old(self).sessions@.len() && old(self).sessions@[final(self).selected->Some_0 as int].id@ == session_id@,
            !(exists|k: int| 0 <= k < old(self).sessions@.len() && (#[trigger] old(self).sessions@[k]).id@ == session_id@)
                ==> final(self).view == old(self).view && final(self).selected == old(self).selected,
    {
        let mut i: usize = 0;
        while i < self.sessions.len()
            invariant
                i <= self.sessions@.len(),
                self.sessions@ == old(self).sessions@,
                self.view == old(self).view,
                self.selected == old(self).selected,
                self.detail_scroll_y == old(self).detail_scroll_y,
                forall|j: int| 0 <= j < i ==> (#[trigger] self.sessions@[j]).id@ != session_id@,
            decreases self.sessions@.len() - i,
        {
            if str_eq(self.sessions[i].id.as_str(), session_id) {
                self.selected = Some(i);
                self.view = AnalyzeViewLevel::Detail { session_id: String::from_str(session_id) };
                self.detail_scroll_y = 0;
                return;
            }
            i = i + 1;
        }
    }

    /// Shows the selected session in detail.
    pub fn enter_detail(&mut self)
        ensures
            final(self).sessions@ == old(self).sessions@,
            (old(self).selected is Some && old(self).selected->Some_0 < old(self).sessions@.len()) ==> final(self).view == (AnalyzeViewLevel::Detail {
                session_id: old(self).sessions@[old(self).selected->Some_0 as int].id,
            }) && final(self).detail_scroll_y == 0,
            !(old(self).selected is Some && old(self).selected->Some_0 < old(self).sessions@.len()) ==> final(self).view == old(self).view,
    {
        match self.selected {
            Some(i) => if i < self.sessions.len() {
                let id = self.sessions[i].id.clone();
                self.view = AnalyzeViewLevel::Detail { session_id: id };
                self.detail_scroll_y = 0;
            },
            None => {},
        }
    }

    /// Returns to the list.
    pub fn exit_detail(&mut self)
        ensures
            final(self).view == AnalyzeViewLevel::List,
            final(self).sessions@ == old(self).sessions@,
    {
        self.view = AnalyzeViewLevel::List;
    }

    /// Scrolls the detail view down a line.
    pub fn scroll_down(&mut self)
        ensures
            old(self).view is Detail ==> final(self).detail_scroll_y == if old(self).detail_scroll_y < u16::MAX {
                (old(self).detail_scroll_y + 1) as u16
            } else {
                u16::MAX
            },
            !(old(self).view is Detail) ==> final(self).detail_scroll_y == old(self).detail_scroll_y,
    {
        if self.is_detail() {
            self.detail_scroll_y = self.detail_scroll_y.saturating_add(1);
        }
    }

    /// Scrolls the detail view up a line.
    pub fn scroll_up(&mut self)
        ensures
            old(self).view is Detail ==> final(self).detail_scroll_y == if old(self).detail_scroll_y > 0 {
                (old(self).detail_scroll_y - 1) as u16
            } else {
                0
            },
            !(old(self).view is Detail) ==> final(self).detail_scroll_y == old(self).detail_scroll_y,
    {
        if self.is_detail() {
            self.detail_scroll_y = self.detail_scroll_y.saturating_sub(1);
        }
    }

    /// Scrolls the detail view down a page.
    pub fn page_down(&mut self)
        ensures
            old(self).view is Detail ==> final(self).detail_scroll_y == if old(self).detail_scroll_y as int + 20
                <= u16::MAX {
                (old(self).detail_scroll_y + 20) as u16
            } else {
                u16::MAX
            },
            !(old(self).view is Detail) ==> final(self).detail_scroll_y == old(self).detail_scroll_y,
    {
        if self.is_detail() {
            self.detail_scroll_y = self.detail_scroll_y.saturating_add(20);
        }
    }

    /// Scrolls the detail view up a page.
    pub fn page_up(&mut self)
        ensures
            old(self).view is Detail ==> final(self).detail_scroll_y == if old(self).detail_scroll_y >= 20 {
                (old(self).detail_scroll_y - 20) as u16
            } else {
                0
            },
            !(old(self).view is Detail) ==> final(self).detail_scroll_y == old(self).detail_scroll_y,
    {
        if self.is_detail() {
            self.detail_scroll_y = self.detail_scroll_y.saturating_sub(20);
        }
    }

    /// Whether the list of sessions is shown.
    pub fn is_list(&self) -> (r: bool)
        ensures
            r == (self.view is List),
    {
        match self.view {
            AnalyzeViewLevel::List => true,
            _ => false,
        }
    }

    fn is_detail(&self) -> (r: bool)
        ensures
            r == (self.view is Detail),
    {
        match self.view {
            AnalyzeViewLevel::Detail { .. } => true,
            _ => false,
        }
    }

    /// Saves lines `start..=end` of a log at `now`, unless a session of the same
    /// job and run already covers one of those lines: then that session is
    /// shown instead. Either way the session ends up in detail view. Returns
    /// whether a new session was created.
    pub fn save_excerpt_at(
        &mut self,
        nav_context: NavigationContext,
        run_metadata: RunMetadata,
        github_url: String,
        log_text: &str,
        start: usize,
        end: usize,
        now: Timestamp,
    ) -> (created: bool)
        requires
            start <= end < usize::MAX,
        ensures
            created == forall|j: int|
                0 <= j < old(self).sessions@.len() ==> !overlaps_session(
                    #[trigger] old(self).sessions@[j],
                    nav_context.job_id,
                    nav_context.run_id,
                    start,
                    end,
                ),
            created == !has_overlap(old(self).sessions@, nav_context.job_id, nav_context.run_id, start, end),
            !created ==> final(self).sessions@ == old(self).sessions@ && final(self).view is Detail
                && final(self).view->session_id@ == old(self).sessions@[first_overlap_index(
                old(self).sessions@,
                nav_context.job_id,
                nav_context.run_id,
                start,
                end,
            )].id@,
            !created ==> final(self).selected == Some(
                first_overlap_index(old(self).sessions@, nav_context.job_id, nav_context.run_id, start, end) as usize,
            ) && final(self).detail_scroll_y == 0,
            created ==> final(self).selected == Some(0usize) && final(self).detail_scroll_y == 0,
            created ==> final(self).sessions@.len() == old(self).sessions@.len() + 1
                && final(self).sessions@.drop_first() == old(self).sessions@ && {
                let s = final(self).sessions@[0];
                &&& s.nav_context == nav_context
                &&& s.excerpt_start_line == start
                &&& s.excerpt_end_line == end
                &&& s.log_excerpt@ == excerpt_of(lines_of(log_text@), start as int, end as int)
                &&& s.total_log_lines == lines_of(log_text@).len()
                &&& s.id@ == session_id(now)
                &&& final(self).view == (AnalyzeViewLevel::Detail { session_id: s.id })
            },
    {
        match self.find_overlapping_index(nav_context.job_id, nav_context.run_id, start, end) {
            Some(k) => {
                let id = self.sessions[k].id.clone();
                assert(first_overlap(self.sessions@, nav_context.job_id, nav_context.run_id, start, end, k as int));
                proof {
                    lemma_first_overlap_unique(self.sessions@, nav_context.job_id, nav_context.run_id, start, end, k as int);
                }
                self.selected = Some(k);
                self.view = AnalyzeViewLevel::Detail { session_id: id };
                self.detail_scroll_y = 0;
                false
            },
            None => {
                let text = excerpt(log_text, start, end);
                let total = line_count(log_text);
                let session = AnalysisSession::new_at(nav_context, run_metadata, github_url, text, total, start, end, now);
                let id = session.id.clone();
                self.add_session(session);
                self.view = AnalyzeViewLevel::Detail { session_id: id };
                self.detail_scroll_y = 0;
                assert(self.sessions@.drop_first() =~= old(self).sessions@);
                assert(!exists|k: int| first_overlap(old(self).sessions@, nav_context.job_id, nav_context.run_id, start, end, k));
                true
            },
        }
    }
}

} // verus!
