//! State of the workflows tab: its navigation stack, one list per level, the
//! job groups, and the log viewer with its line selection.

use vstd::prelude::*;
use crate::grouping::{JobGroup, JobListItem, flat_of};
use crate::lists::{LoadingState, SelectableList};
use crate::log::{down_cursor, lines_of, line_count, last_line, moved, up_cursor};
use crate::log;
use crate::navigation::{popped, LevelStack, NavigationStack, ViewLevel};
use crate::types::{Job, Owner, Repository, Workflow, WorkflowRun};

verus! {

/// Lines moved by a page.
pub const PAGE_LINES: usize = 20;

/// Columns moved by a horizontal scroll step.
pub const SCROLL_COLUMNS: u16 = 4;

/// Number of lines of loaded log text (0 when not loaded).
pub open spec fn log_lines(content: LoadingState<String>) -> usize {
    match content {
        LoadingState::Loaded(t) => lines_of(t@).len() as usize,
        _ => 0,
    }
}

/// Complete state of the workflows tab.
pub struct WorkflowsTabState {
    pub nav: NavigationStack,
    pub owners: SelectableList<Owner>,
    pub repositories: SelectableList<Repository>,
    pub workflows: SelectableList<Workflow>,
    pub runs: SelectableList<WorkflowRun>,
    pub jobs: SelectableList<Job>,
    /// Jobs grouped by name.
    pub job_groups: Vec<JobGroup>,
    /// One entry per attempt of `job_groups`; the jobs cursor indexes this.
    pub job_list_items: Vec<JobListItem>,
    pub log_content: LoadingState<String>,
    pub log_scroll_x: u16,
    pub log_scroll_y: u16,
    /// Selection anchor line in the log viewer (0-indexed).
    pub log_selection_anchor: usize,
    /// Selection cursor line in the log viewer (0-indexed).
    pub log_selection_cursor: usize,
    /// Branches chosen before, most recent first.
    pub branch_history: Vec<String>,
    /// Branch that runs are filtered by.
    pub current_branch: Option<String>,
    pub branch_modal_visible: bool,
    pub branch_input: String,
    pub branch_history_selection: usize,
}

impl WorkflowsTabState {
    /// The log viewer is reset: no content, no scroll, no selection.
    pub open spec fn log_cleared(&self) -> bool {
        self.log_content is Idle && self.log_scroll_x == 0 && self.log_scroll_y == 0
            && self.log_selection_anchor == 0 && self.log_selection_cursor == 0
    }

    /// At the owners level with every list empty.
    pub fn new() -> (r: Self)
        ensures
            r.nav@ == seq![ViewLevel::Owners],
            r.owners.is_cleared() && r.repositories.is_cleared() && r.workflows.is_cleared()
                && r.runs.is_cleared() && r.jobs.is_cleared(),
            r.log_cleared(),
            r.current_branch is None,
    {
        WorkflowsTabState {
            nav: LevelStack::new(ViewLevel::Owners),
            owners: SelectableList::new(),
            repositories: SelectableList::new(),
            workflows: SelectableList::new(),
            runs: SelectableList::new(),
            jobs: SelectableList::new(),
            job_groups: Vec::new(),
            job_list_items: Vec::new(),
            log_content: LoadingState::Idle,
            log_scroll_x: 0,
            log_scroll_y: 0,
            log_selection_anchor: 0,
            log_selection_cursor: 0,
            branch_history: Vec::new(),
            current_branch: None,
            branch_modal_visible: false,
            branch_input: String::new(),
            branch_history_selection: 0,
        }
    }

    /// The current view level.
    pub fn current_view(&self) -> (r: &ViewLevel)
        ensures
            *r == self.nav@.last(),
    {
        self.nav.current()
    }

    fn clear_log(&mut self)
        ensures
            final(self).log_cleared(),
            final(self).nav@ == old(self).nav@,
            final(self).owners == old(self).owners,
            final(self).repositories == old(self).repositories,
            final(self).workflows == old(self).workflows,
            final(self).runs == old(self).runs,
            final(self).jobs == old(self).jobs,
    {
        self.log_content = LoadingState::Idle;
        self.log_scroll_x = 0;
        self.log_scroll_y = 0;
        self.log_selection_anchor = 0;
        self.log_selection_cursor = 0;
    }

    /// Goes back one level and clears the lists of the level left and those
    /// below it, so that they load afresh when drilled into again.
    /// `after` has the lists of the level left by going back, and of the
    /// levels below it, cleared so that they load afresh.
    pub open spec fn back_cleared(&self, after: Self) -> bool {
        match self.nav@.last() {
            ViewLevel::Owners => true,
            ViewLevel::Repositories { .. } => after.repositories.is_cleared()
                && after.workflows.is_cleared() && after.runs.is_cleared()
                && after.jobs.is_cleared() && after.log_content is Idle,
            ViewLevel::Workflows { .. } => after.workflows.is_cleared() && after.runs.is_cleared()
                && after.jobs.is_cleared() && after.log_content is Idle
                && after.repositories == self.repositories,
            ViewLevel::Runs { .. } => after.runs.is_cleared() && after.jobs.is_cleared()
                && after.log_content is Idle && after.workflows == self.workflows,
            ViewLevel::Jobs { .. } => after.jobs.is_cleared() && after.log_content is Idle
                && after.runs == self.runs,
            ViewLevel::Logs { .. } => after.log_cleared() && after.jobs == self.jobs,
        }
    }

    pub fn go_back(&mut self) -> (r: bool)
        ensures
            (final(self).nav@, r) == popped(old(self).nav@),
            r ==> old(self).back_cleared(*final(self)),
            !r ==> final(self).log_content == old(self).log_content,
            final(self).owners == old(self).owners,
    {
        let level = match self.nav.current() {
            ViewLevel::Owners => 0u8,
            ViewLevel::Repositories { .. } => 1u8,
            ViewLevel::Workflows { .. } => 2u8,
            ViewLevel::Runs { .. } => 3u8,
            ViewLevel::Jobs { .. } => 4u8,
            ViewLevel::Logs { .. } => 5u8,
        };
        let popped = self.nav.pop();
        if popped {
            if level == 1 {
                self.repositories = SelectableList::new();
            }
            if level >= 1 && level <= 2 {
                self.workflows = SelectableList::new();
            }
            if level >= 1 && level <= 3 {
                self.runs = SelectableList::new();
            }
            if level >= 1 && level <= 4 {
                self.jobs = SelectableList::new();
                self.log_content = LoadingState::Idle;
            }
            if level == 5 {
                self.clear_log();
            }
        }
        popped
    }

    /// `after` is `self` with the current level's list cursor stepped up or
    /// down (see `stepped`); every other list is as it was.
    pub open spec fn lists_stepped(&self, after: Self, up: bool) -> bool {
        &&& after.owners.data == self.owners.data && after.owners.filter == self.owners.filter
        &&& after.owners.selected == crate::lists::stepped(self.owners, up, self.nav@.last() is Owners)
        &&& after.repositories.data == self.repositories.data && after.repositories.filter == self.repositories.filter
        &&& after.repositories.selected == crate::lists::stepped(self.repositories, up, self.nav@.last() is Repositories)
        &&& after.workflows.data == self.workflows.data && after.workflows.filter == self.workflows.filter
        &&& after.workflows.selected == crate::lists::stepped(self.workflows, up, self.nav@.last() is Workflows)
        &&& after.runs.data == self.runs.data && after.runs.filter == self.runs.filter
        &&& after.runs.selected == crate::lists::stepped(self.runs, up, self.nav@.last() is Runs)
        &&& after.jobs.data == self.jobs.data && after.jobs.filter == self.jobs.filter
        &&& after.jobs.selected == crate::lists::stepped(self.jobs, up, self.nav@.last() is Jobs)
    }

    /// Up key: moves the current list's cursor, or scrolls the log up.
    pub fn select_prev(&mut self)
        ensures
            old(self).lists_stepped(*final(self), true),
            final(self).log_selection_anchor == old(self).log_selection_anchor,
            final(self).log_selection_cursor == old(self).log_selection_cursor,
            final(self).log_content == old(self).log_content,
            !(old(self).nav@.last() is Logs) ==> final(self).log_scroll_y == old(self).log_scroll_y,
            final(self).nav@ == old(self).nav@,
            old(self).nav@.last() is Logs ==> final(self).log_scroll_y == if old(self).log_scroll_y > 0 {
                (old(self).log_scroll_y - 1) as u16
            } else {
                0
            },
    {
        match self.nav.current() {
            ViewLevel::Owners => self.owners.select_prev(),
            ViewLevel::Repositories { .. } => self.repositories.select_prev(),
            ViewLevel::Workflows { .. } => self.workflows.select_prev(),
            ViewLevel::Runs { .. } => self.runs.select_prev(),
            ViewLevel::Jobs { .. } => self.jobs.select_prev(),
            ViewLevel::Logs { .. } => {
                self.log_scroll_y = if self.log_scroll_y > 0 { self.log_scroll_y - 1 } else { 0 };
            },
        }
    }

    /// Down key: moves the current list's cursor, or scrolls the log down.
    pub fn select_next(&mut self)
        ensures
            old(self).lists_stepped(*final(self), false),
            final(self).log_selection_anchor == old(self).log_selection_anchor,
            final(self).log_selection_cursor == old(self).log_selection_cursor,
            final(self).log_content == old(self).log_content,
            !(old(self).nav@.last() is Logs) ==> final(self).log_scroll_y == old(self).log_scroll_y,
            final(self).nav@ == old(self).nav@,
            old(self).nav@.last() is Logs ==> final(self).log_scroll_y == if old(self).log_scroll_y < u16::MAX {
                (old(self).log_scroll_y + 1) as u16
            } else {
                u16::MAX
            },
    {
        match self.nav.current() {
            ViewLevel::Owners => self.owners.select_next(),
            ViewLevel::Repositories { .. } => self.repositories.select_next(),
            ViewLevel::Workflows { .. } => self.workflows.select_next(),
            ViewLevel::Runs { .. } => self.runs.select_next(),
            ViewLevel::Jobs { .. } => self.jobs.select_next(),
            ViewLevel::Logs { .. } => {
                self.log_scroll_y = self.log_scroll_y.saturating_add(1);
            },
        }
    }

    /// Left key: scrolls the log left.
    pub fn scroll_left(&mut self)
        ensures
            !(old(self).nav@.last() is Logs) ==> *final(self) == *old(self),
            final(self).nav@ == old(self).nav@,
            old(self).nav@.last() is Logs ==> final(self).log_scroll_x == if old(self).log_scroll_x >= SCROLL_COLUMNS {
                (old(self).log_scroll_x - SCROLL_COLUMNS) as u16
            } else {
                0
            },
            !(old(self).nav@.last() is Logs) ==> final(self).log_scroll_x == old(self).log_scroll_x,
    {
        if self.nav.current().is_logs() {
            self.log_scroll_x = self.log_scroll_x.saturating_sub(SCROLL_COLUMNS);
        }
    }

    /// Right key: scrolls the log right.
    pub fn scroll_right(&mut self)
        ensures
            !(old(self).nav@.last() is Logs) ==> *final(self) == *old(self),
            final(self).nav@ == old(self).nav@,
            old(self).nav@.last() is Logs ==> final(self).log_scroll_x == if old(self).log_scroll_x as int + SCROLL_COLUMNS
                <= u16::MAX {
                (old(self).log_scroll_x + SCROLL_COLUMNS) as u16
            } else {
                u16::MAX
            },
            !(old(self).nav@.last() is Logs) ==> final(self).log_scroll_x == old(self).log_scroll_x,
    {
        if self.nav.current().is_logs() {
            self.log_scroll_x = self.log_scroll_x.saturating_add(SCROLL_COLUMNS);
        }
    }

    /// Page Up: scrolls the log up a page.
    pub fn page_up(&mut self)
        ensures
            !(old(self).nav@.last() is Logs) ==> *final(self) == *old(self),
            final(self).nav@ == old(self).nav@,
            old(self).nav@.last() is Logs ==> final(self).log_scroll_y == if old(self).log_scroll_y >= 20 {
                (old(self).log_scroll_y - 20) as u16
            } else {
                0
            },
            !(old(self).nav@.last() is Logs) ==> final(self).log_scroll_y == old(self).log_scroll_y,
    {
        if self.nav.current().is_logs() {
            self.log_scroll_y = self.log_scroll_y.saturating_sub(20);
        }
    }

    /// Page Down: scrolls the log down a page.
    pub fn page_down(&mut self)
        ensures
            !(old(self).nav@.last() is Logs) ==> *final(self) == *old(self),
            final(self).nav@ == old(self).nav@,
            old(self).nav@.last() is Logs ==> final(self).log_scroll_y == if old(self).log_scroll_y as int + 20 <= u16::MAX {
                (old(self).log_scroll_y + 20) as u16
            } else {
                u16::MAX
            },
            !(old(self).nav@.last() is Logs) ==> final(self).log_scroll_y == old(self).log_scroll_y,
    {
        if self.nav.current().is_logs() {
            self.log_scroll_y = self.log_scroll_y.saturating_add(20);
        }
    }

    /// Home: scrolls the log to its start.
    pub fn scroll_to_start(&mut self)
        ensures
            !(old(self).nav@.last() is Logs) ==> *final(self) == *old(self),
            final(self).nav@ == old(self).nav@,
            old(self).nav@.last() is Logs ==> final(self).log_scroll_y == 0 && final(self).log_scroll_x == 0,
            !(old(self).nav@.last() is Logs) ==> final(self).log_scroll_y == old(self).log_scroll_y
                && final(self).log_scroll_x == old(self).log_scroll_x,
    {
        if self.nav.current().is_logs() {
            self.log_scroll_y = 0;
            self.log_scroll_x = 0;
        }
    }

    /// End: scrolls the loaded log so its last ten lines show.
    pub fn scroll_to_end(&mut self)
        ensures
            !(old(self).nav@.last() is Logs) ==> *final(self) == *old(self),
            final(self).nav@ == old(self).nav@,
            old(self).nav@.last() is Logs && old(self).log_content is Loaded ==> final(self).log_scroll_y as int == {
                let n = if log_lines(old(self).log_content) > u16::MAX { u16::MAX as int } else { log_lines(old(self).log_content) as int };
                if n >= 10 { n - 10 } else { 0 }
            },
            !(old(self).nav@.last() is Logs && old(self).log_content is Loaded) ==> final(self).log_scroll_y
                == old(self).log_scroll_y,
    {
        if self.nav.current().is_logs() {
            match &self.log_content {
                LoadingState::Loaded(logs) => {
                    let n = line_count(logs.as_str());
                    let n16: u16 = if n > 65535 { 65535 } else { n as u16 };
                    self.log_scroll_y = n16.saturating_sub(10);
                },
                _ => {},
            }
        }
    }

    /// Clears the current level's data so that it loads afresh.
    pub fn clear_current(&mut self)
        ensures
            final(self).nav@ == old(self).nav@,
            match old(self).nav@.last() {
                ViewLevel::Owners => final(self).owners.is_cleared(),
                ViewLevel::Repositories { .. } => final(self).repositories.is_cleared(),
                ViewLevel::Workflows { .. } => final(self).workflows.is_cleared(),
                ViewLevel::Runs { .. } => final(self).runs.is_cleared(),
                ViewLevel::Jobs { .. } => final(self).jobs.is_cleared(),
                ViewLevel::Logs { .. } => final(self).log_cleared(),
            },
    {
        match self.nav.current() {
            ViewLevel::Owners => self.owners = SelectableList::new(),
            ViewLevel::Repositories { .. } => self.repositories = SelectableList::new(),
            ViewLevel::Workflows { .. } => self.workflows = SelectableList::new(),
            ViewLevel::Runs { .. } => self.runs = SelectableList::new(),
            ViewLevel::Jobs { .. } => self.jobs = SelectableList::new(),
            ViewLevel::Logs { .. } => self.clear_log(),
        }
    }

    /// The selected lines, as (first, last), whichever way they were selected.
    pub fn log_selection_range(&self) -> (r: (usize, usize))
        ensures
            r.0 <= r.1,
            r.0 == if self.log_selection_anchor <= self.log_selection_cursor { self.log_selection_anchor } else { self.log_selection_cursor },
            r.1 == if self.log_selection_anchor <= self.log_selection_cursor { self.log_selection_cursor } else { self.log_selection_anchor },
    {
        log::selection_range(self.log_selection_anchor, self.log_selection_cursor)
    }

    /// Moves the selection cursor up a line; without `extend` the anchor follows.
    pub fn selection_up(&mut self, extend: bool)
        ensures
            final(self).nav@ == old(self).nav@,
            old(self).log_content is Loaded ==> (final(self).log_selection_anchor, final(self).log_selection_cursor)
                == moved(old(self).log_selection_anchor, up_cursor(old(self).log_selection_cursor), extend),
            !(old(self).log_content is Loaded) ==> final(self).log_selection_anchor == old(self).log_selection_anchor
                && final(self).log_selection_cursor == old(self).log_selection_cursor,
            final(self).log_scroll_y == old(self).log_scroll_y,
    {
        if self.log_content.is_loaded() {
            let (a, c) = log::selection_up(self.log_selection_anchor, self.log_selection_cursor, extend);
            self.log_selection_anchor = a;
            self.log_selection_cursor = c;
        }
    }

    /// Moves the selection cursor down a line, staying on the last.
    pub fn selection_down(&mut self, extend: bool)
        ensures
            final(self).nav@ == old(self).nav@,
            old(self).log_content is Loaded ==> (final(self).log_selection_anchor, final(self).log_selection_cursor)
                == moved(old(self).log_selection_anchor, down_cursor(old(self).log_selection_cursor, log_lines(old(self).log_content)), extend),
            !(old(self).log_content is Loaded) ==> final(self).log_selection_anchor == old(self).log_selection_anchor
                && final(self).log_selection_cursor == old(self).log_selection_cursor,
            final(self).log_scroll_y == old(self).log_scroll_y,
    {
        match &self.log_content {
            LoadingState::Loaded(logs) => {
                let n = line_count(logs.as_str());
                let (a, c) = log::selection_down(self.log_selection_anchor, self.log_selection_cursor, n, extend);
                self.log_selection_anchor = a;
                self.log_selection_cursor = c;
            },
            _ => {},
        }
    }

    /// Moves the selection cursor to the first line.
    pub fn selection_to_start(&mut self, extend: bool)
        ensures
            final(self).log_scroll_y == old(self).log_scroll_y,
            final(self).nav@ == old(self).nav@,
            final(self).nav@ == old(self).nav@,
            (final(self).log_selection_anchor, final(self).log_selection_cursor) == moved(
                old(self).log_selection_anchor,
                0,
                extend,
            ),
    {
        let (a, c) = log::selection_to(self.log_selection_anchor, 0, extend);
        self.log_selection_anchor = a;
        self.log_selection_cursor = c;
    }

    /// Moves the selection cursor to the last line of the loaded log.
    pub fn selection_to_end(&mut self, extend: bool)
        ensures
            final(self).log_scroll_y == old(self).log_scroll_y,
            final(self).nav@ == old(self).nav@,
            final(self).nav@ == old(self).nav@,
            old(self).log_content is Loaded ==> (final(self).log_selection_anchor, final(self).log_selection_cursor)
                == moved(old(self).log_selection_anchor, last_line(log_lines(old(self).log_content)), extend),
            !(old(self).log_content is Loaded) ==> final(self).log_selection_anchor == old(self).log_selection_anchor
                && final(self).log_selection_cursor == old(self).log_selection_cursor,
    {
        match &self.log_content {
            LoadingState::Loaded(logs) => {
                let n = line_count(logs.as_str());
                let last = if n > 0 { n - 1 } else { 0 };
                let (a, c) = log::selection_to(self.log_selection_anchor, last, extend);
                self.log_selection_anchor = a;
                self.log_selection_cursor = c;
            },
            _ => {},
        }
    }

    /// Moves the selection cursor up a page, stopping at the first line.
    pub fn selection_page_up(&mut self, extend: bool)
        ensures
            final(self).log_scroll_y == old(self).log_scroll_y,
            final(self).nav@ == old(self).nav@,
            final(self).nav@ == old(self).nav@,
            old(self).log_content is Loaded ==> (final(self).log_selection_anchor, final(self).log_selection_cursor)
                == moved(
                old(self).log_selection_anchor,
                if old(self).log_selection_cursor >= PAGE_LINES { (old(self).log_selection_cursor - PAGE_LINES) as usize } else { 0usize },
                extend,
            ),
            !(old(self).log_content is Loaded) ==> final(self).log_selection_anchor == old(self).log_selection_anchor
                && final(self).log_selection_cursor == old(self).log_selection_cursor,
    {
        if self.log_content.is_loaded() {
            let (a, c) = log::selection_page_up(self.log_selection_anchor, self.log_selection_cursor, PAGE_LINES, extend);
            self.log_selection_anchor = a;
            self.log_selection_cursor = c;
        }
    }

    /// Moves the selection cursor down a page, stopping at the last line.
    pub fn selection_page_down(&mut self, extend: bool)
        ensures
            final(self).log_scroll_y == old(self).log_scroll_y,
            final(self).nav@ == old(self).nav@,
            final(self).nav@ == old(self).nav@,
            old(self).log_content is Loaded ==> (final(self).log_selection_anchor, final(self).log_selection_cursor)
                == moved(
                old(self).log_selection_anchor,
                if old(self).log_selection_cursor + PAGE_LINES <= last_line(log_lines(old(self).log_content)) {
                    (old(self).log_selection_cursor + PAGE_LINES) as usize
                } else {
                    last_line(log_lines(old(self).log_content))
                },
                extend,
            ),
            !(old(self).log_content is Loaded) ==> final(self).log_selection_anchor == old(self).log_selection_anchor
                && final(self).log_selection_cursor == old(self).log_selection_cursor,
    {
        match &self.log_content {
            LoadingState::Loaded(logs) => {
                let n = line_count(logs.as_str());
                let (a, c) = log::selection_page_down(self.log_selection_anchor, self.log_selection_cursor, n, PAGE_LINES, extend);
                self.log_selection_anchor = a;
                self.log_selection_cursor = c;
            },
            _ => {},
        }
    }

    /// Up in the branch chooser: the previous history entry, stopping at the
    /// first.
    pub fn branch_selection_up(&mut self)
        ensures
            final(self).branch_history_selection == if old(self).branch_history@.len() > 0
                && old(self).branch_history_selection > 0 {
                (old(self).branch_history_selection - 1) as usize
            } else {
                old(self).branch_history_selection
            },
            final(self).branch_history@ == old(self).branch_history@,
            final(self).branch_input == old(self).branch_input,
    {
        if self.branch_history.len() > 0 && self.branch_history_selection > 0 {
            self.branch_history_selection = self.branch_history_selection - 1;
        }
    }

    /// Down in the branch chooser: the next history entry, stopping at the
    /// last.
    pub fn branch_selection_down(&mut self)
        ensures
            final(self).branch_history_selection == if old(self).branch_history@.len() > 0
                && old(self).branch_history_selection < old(self).branch_history@.len() - 1 {
                (old(self).branch_history_selection + 1) as usize
            } else {
                old(self).branch_history_selection
            },
            final(self).branch_history@ == old(self).branch_history@,
            final(self).branch_input == old(self).branch_input,
    {
        if self.branch_history.len() > 0 && self.branch_history_selection < self.branch_history.len() - 1 {
            self.branch_history_selection = self.branch_history_selection + 1;
        }
    }

    /// Opens the branch chooser (only over the workflows list), with empty
    /// input and the first history entry highlighted.
    pub fn open_branch_chooser(&mut self)
        ensures
            old(self).nav@.last() is Workflows ==> final(self).branch_modal_visible && final(self).branch_input@.len() == 0
                && final(self).branch_history_selection == 0,
            !(old(self).nav@.last() is Workflows) ==> final(self).branch_modal_visible == old(self).branch_modal_visible,
            final(self).nav@ == old(self).nav@,
    {
        let at_workflows = match self.nav.current() {
            ViewLevel::Workflows { .. } => true,
            _ => false,
        };
        if at_workflows {
            self.branch_modal_visible = true;
            self.branch_input = String::new();
            self.branch_history_selection = 0;
        }
    }

    /// Closes the branch chooser without choosing, clearing its input.
    pub fn close_branch_chooser(&mut self)
        ensures
            !final(self).branch_modal_visible,
            final(self).branch_input@.len() == 0,
            final(self).branch_history_selection == 0,
            final(self).current_branch == old(self).current_branch,
            final(self).nav@ == old(self).nav@,
    {
        self.branch_modal_visible = false;
        self.branch_input = String::new();
        self.branch_history_selection = 0;
    }

    /// The branch that Enter in the branch chooser picks: the typed name, or,
    /// with nothing typed, the highlighted history entry.
    pub fn chosen_branch(&self) -> (r: Option<String>)
        ensures
            self.branch_input@.len() > 0 ==> r == Some(self.branch_input),
            self.branch_input@.len() == 0 ==> r == if self.branch_history_selection < self.branch_history@.len() {
                Some(self.branch_history@[self.branch_history_selection as int])
            } else {
                None
            },
    {
        if self.branch_input.as_str().unicode_len() > 0 {
            Some(self.branch_input.clone())
        } else if self.branch_history_selection < self.branch_history.len() {
            Some(self.branch_history[self.branch_history_selection].clone())
        } else {
            None
        }
    }

    /// Fills the jobs list, groups the jobs by name at `now`, and flattens the
    /// groups for the cursor.
    pub fn set_jobs_at(&mut self, jobs: Vec<Job>, total_count: u64, now: i64)
        ensures
            final(self).jobs.data is Loaded,
            final(self).jobs.data->Loaded_0.items@.len() == jobs@.len(),
            forall|k: int| 0 <= k < jobs@.len() ==> crate::types::same_job(
                #[trigger] final(self).jobs.data->Loaded_0.items@[k],
                jobs@[k],
            ),
            final(self).jobs.data->Loaded_0.total_count == total_count,
            final(self).jobs.selected == if jobs@.len() > 0 { Some(0usize) } else { None },
            final(self).job_list_items@ == flat_of(final(self).job_groups@),
            crate::grouping::well_grouped(crate::grouping::group_views(final(self).job_groups@), now),
            crate::grouping::jobs_of(crate::grouping::group_views(final(self).job_groups@)) == jobs@.to_multiset(),
    {
        let copy = crate::types::copy_jobs(&jobs);
        self.jobs.set_loaded(copy, total_count);
        self.job_groups = crate::grouping::group_by_name_at(jobs, now);
        self.job_list_items = JobListItem::flatten(self.job_groups.as_slice());
    }
}

impl ViewLevel {
    /// Whether this is the log viewer level.
    pub fn is_logs(&self) -> (r: bool)
        ensures
            r == (*self is Logs),
    {
        match self {
            ViewLevel::Logs { .. } => true,
            _ => false,
        }
    }
}

} // verus!
