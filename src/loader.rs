//! Cache-then-fetch loading. For the current level a plan names the cache
//! entry to try and the fetch to make; the caller reads the cache and makes
//! the fetch, and hands the results to the list's `begin_load`/`finish_load`.

use vstd::prelude::*;
use vstd::string::*;
use crate::error::{error_message, job_logs_error, logs_unavailable_text, JoltError};
use crate::lists::LoadingState;
use crate::navigation::ViewLevel;
use crate::paths;
use crate::runners::{RunnersTabState, RunnersViewLevel};
use crate::text::concat_str;
use crate::types::{Owner, Repository};
use crate::workflows::WorkflowsTabState;

verus! {

/// Items fetched per page.
pub const PER_PAGE: u32 = 30;

/// A fetch from the CI provider.
#[derive(Clone, Debug, PartialEq, Eq)]
pub enum FetchRequest {
    /// The user and their organizations.
    Owners,
    /// The user's repositories owned by `owner`.
    Repositories { owner: String },
    Workflows { owner: String, repo: String },
    /// Runs of a workflow, on one branch when `branch` is set.
    Runs { owner: String, repo: String, workflow_id: u64, branch: Option<String> },
    Jobs { owner: String, repo: String, run_id: u64 },
    JobLogs { owner: String, repo: String, job_id: u64 },
    /// The user's repositories, for the runners tab.
    RunnerRepositories,
    /// Runners of a repository with what they are running.
    Runners { owner: String, repo: String },
    /// All runs of a repository.
    RepoRuns { owner: String, repo: String },
}

/// How to load the current level: which cache entry to try first (none when
/// the level is not cached) and which fetch to make on a miss.
#[derive(Clone, Debug)]
pub struct LoadPlan {
    pub cache_path: Option<String>,
    pub request: FetchRequest,
}

/// Whether a level's list (or log) is already loaded.
pub open spec fn level_loaded(t: WorkflowsTabState, l: ViewLevel) -> bool {
    match l {
        ViewLevel::Owners => t.owners.data is Loaded,
        ViewLevel::Repositories { .. } => t.repositories.data is Loaded,
        ViewLevel::Workflows { .. } => t.workflows.data is Loaded,
        ViewLevel::Runs { .. } => t.runs.data is Loaded,
        ViewLevel::Jobs { .. } => t.jobs.data is Loaded,
        ViewLevel::Logs { .. } => t.log_content is Loaded,
    }
}

/// The fetch that loads a workflows level.
pub open spec fn level_request(l: ViewLevel, branch: Option<String>) -> FetchRequest {
    match l {
        ViewLevel::Owners => FetchRequest::Owners,
        ViewLevel::Repositories { owner } => FetchRequest::Repositories { owner },
        ViewLevel::Workflows { owner, repo } => FetchRequest::Workflows { owner, repo },
        ViewLevel::Runs { owner, repo, workflow_id, .. } => FetchRequest::Runs { owner, repo, workflow_id, branch },
        ViewLevel::Jobs { owner, repo, run_id, .. } => FetchRequest::Jobs { owner, repo, run_id },
        ViewLevel::Logs { owner, repo, job_id, .. } => FetchRequest::JobLogs { owner, repo, job_id },
    }
}

/// A copy of an optional string.
pub(crate) fn copy_opt(s: &Option<String>) -> (r: Option<String>)
    ensures
        r == *s,
{
    match s {
        Some(x) => Some(x.clone()),
        None => None,
    }
}

/// Where, under the cache directory, a workflows level's data is cached.
pub open spec fn level_cache_rel(l: ViewLevel) -> Seq<char> {
    match l {
        ViewLevel::Owners => "owners.json"@,
        ViewLevel::Repositories { owner } => paths::joined(paths::owner_dir_rel(owner@), "repos.json"@),
        ViewLevel::Workflows { owner, repo } => paths::joined(paths::repo_dir_rel(owner@, repo@), "workflows.json"@),
        ViewLevel::Runs { owner, repo, workflow_id, .. } => paths::joined(
            paths::workflow_dir_rel(owner@, repo@, workflow_id),
            "runs.json"@,
        ),
        ViewLevel::Jobs { owner, repo, workflow_id, run_id, .. } => paths::joined(
            paths::run_dir_rel(owner@, repo@, workflow_id, run_id),
            "jobs.json"@,
        ),
        ViewLevel::Logs { owner, repo, workflow_id, run_id, job_id, .. } => paths::joined(
            paths::job_dir_rel(owner@, repo@, workflow_id, run_id, job_id),
            "log.txt"@,
        ),
    }
}

impl WorkflowsTabState {
    /// The plan for loading the current level; none when it is loaded already
    /// (entering a loaded level again does nothing). Runs filtered by a branch
    /// skip the cache.
    pub fn load_plan(&self) -> (r: Option<LoadPlan>)
        ensures
            r is None <==> level_loaded(*self, self.nav@.last()),
            r matches Some(p) ==> p.request == level_request(self.nav@.last(), self.current_branch),
            r matches Some(p) ==> (p.cache_path is Some ==> !(self.nav@.last() is Runs && self.current_branch is Some)),
            r matches Some(p) ==> (p.cache_path matches Some(c) ==> paths::ends_with_path(c@, level_cache_rel(self.nav@.last()))),
    {
        let level = self.nav.current();
        match level {
            ViewLevel::Owners => {
                if self.owners.data.is_loaded() {
                    return None;
                }
                Some(LoadPlan { cache_path: paths::owners_list_path(), request: FetchRequest::Owners })
            },
            ViewLevel::Repositories { owner } => {
                if self.repositories.data.is_loaded() {
                    return None;
                }
                Some(LoadPlan {
                    cache_path: paths::repos_list_path(owner.as_str()),
                    request: FetchRequest::Repositories { owner: owner.clone() },
                })
            },
            ViewLevel::Workflows { owner, repo } => {
                if self.workflows.data.is_loaded() {
                    return None;
                }
                Some(LoadPlan {
                    cache_path: paths::workflows_list_path(owner.as_str(), repo.as_str()),
                    request: FetchRequest::Workflows { owner: owner.clone(), repo: repo.clone() },
                })
            },
            ViewLevel::Runs { owner, repo, workflow_id, .. } => {
                if self.runs.data.is_loaded() {
                    return None;
                }
                let cache_path = if self.current_branch.is_none() {
                    paths::runs_list_path(owner.as_str(), repo.as_str(), *workflow_id)
                } else {
                    None
                };
                Some(LoadPlan {
                    cache_path,
                    request: FetchRequest::Runs {
                        owner: owner.clone(),
                        repo: repo.clone(),
                        workflow_id: *workflow_id,
                        branch: copy_opt(&self.current_branch),
                    },
                })
            },
            ViewLevel::Jobs { owner, repo, workflow_id, run_id, .. } => {
                if self.jobs.data.is_loaded() {
                    return None;
                }
                Some(LoadPlan {
                    cache_path: paths::jobs_list_path(owner.as_str(), repo.as_str(), *workflow_id, *run_id),
                    request: FetchRequest::Jobs { owner: owner.clone(), repo: repo.clone(), run_id: *run_id },
                })
            },
            ViewLevel::Logs { owner, repo, workflow_id, run_id, job_id, .. } => {
                if self.log_content.is_loaded() {
                    return None;
                }
                Some(LoadPlan {
                    cache_path: paths::job_log_path(owner.as_str(), repo.as_str(), *workflow_id, *run_id, *job_id),
                    request: FetchRequest::JobLogs { owner: owner.clone(), repo: repo.clone(), job_id: *job_id },
                })
            },
        }
    }

    /// Chooses `branch` for the runs of a workflow: it becomes current, goes
    /// to the front of the history (kept to ten, without repeats), and the
    /// workflows and runs lists are cleared so that they load afresh.
    pub fn switch_branch(&mut self, branch: String)
        ensures
            final(self).current_branch == Some(branch),
            final(self).branch_history@ == push_history(old(self).branch_history@, branch),
            final(self).workflows.is_cleared() && final(self).runs.is_cleared(),
            !final(self).branch_modal_visible,
            final(self).nav@ == old(self).nav@,
    {
        self.branch_modal_visible = false;
        self.branch_input = String::new();
        let copy = branch.clone();
        self.current_branch = Some(copy);
        let mut history = Vec::new();
        std::mem::swap(&mut history, &mut self.branch_history);
        self.branch_history = push_branch_history(history, branch);
        self.workflows = crate::lists::SelectableList::new();
        self.runs = crate::lists::SelectableList::new();
    }
}

/// Most branches kept in the history.
pub const BRANCH_HISTORY_MAX: usize = 10;

/// The history after choosing `b`: a branch already there stays where it is;
/// a new one goes in front, and the history keeps its first ten.
pub open spec fn push_history(h: Seq<String>, b: String) -> Seq<String> {
    if exists|i: int| 0 <= i < h.len() && h[i]@ == b@ {
        h
    } else {
        let n = seq![b] + h;
        if n.len() > BRANCH_HISTORY_MAX { n.subrange(0, BRANCH_HISTORY_MAX as int) } else { n }
    }
}

/// The branch history after choosing `branch`.
pub fn push_branch_history(history: Vec<String>, branch: String) -> (r: Vec<String>)
    ensures
        r@ == push_history(history@, branch),
{
    let mut i: usize = 0;
    while i < history.len()
        invariant
            i <= history@.len(),
            forall|j: int| 0 <= j < i ==> (#[trigger] history@[j])@ != branch@,
        decreases history@.len() - i,
    {
        if crate::favorites::str_eq(history[i].as_str(), branch.as_str()) {
            return history;
        }
        i = i + 1;
    }
    let ghost b = branch;
    let mut h = history;
    h.insert(0, branch);
    assert(h@ =~= seq![b] + history@);
    if h.len() > BRANCH_HISTORY_MAX {
        h.truncate(BRANCH_HISTORY_MAX);
    }
    h
}

/// Whether a runners level's list (or log) is already loaded.
pub open spec fn runners_level_loaded(t: RunnersTabState, l: RunnersViewLevel) -> bool {
    match l {
        RunnersViewLevel::Repositories => t.repositories.data is Loaded,
        RunnersViewLevel::Runners { .. } => t.runners.data is Loaded,
        RunnersViewLevel::Runs { .. } => t.runs.data is Loaded,
        RunnersViewLevel::Jobs { .. } => t.jobs.data is Loaded,
        RunnersViewLevel::Logs { .. } => t.log_content is Loaded,
    }
}

/// The fetch that loads a runners level.
pub open spec fn runners_request(l: RunnersViewLevel) -> FetchRequest {
    match l {
        RunnersViewLevel::Repositories => FetchRequest::RunnerRepositories,
        RunnersViewLevel::Runners { owner, repo } => FetchRequest::Runners { owner, repo },
        RunnersViewLevel::Runs { owner, repo, .. } => FetchRequest::RepoRuns { owner, repo },
        RunnersViewLevel::Jobs { owner, repo, run_id, .. } => FetchRequest::Jobs { owner, repo, run_id },
        RunnersViewLevel::Logs { owner, repo, job_id, .. } => FetchRequest::JobLogs { owner, repo, job_id },
    }
}

impl RunnersTabState {
    /// The plan for loading the current level; none when it is loaded already.
    /// Only the repositories list is cached; the rest is always fetched.
    pub fn load_plan(&self) -> (r: Option<LoadPlan>)
        ensures
            r is None <==> runners_level_loaded(*self, self.nav@.last()),
            r matches Some(p) ==> p.request == runners_request(self.nav@.last()),
            r matches Some(p) ==> (p.cache_path is Some ==> self.nav@.last() is Repositories),
            r matches Some(p) ==> (p.cache_path matches Some(c) ==> paths::ends_with_path(c@, "runners_repos.json"@)),
    {
        match self.nav.current() {
            RunnersViewLevel::Repositories => {
                if self.repositories.data.is_loaded() {
                    return None;
                }
                Some(LoadPlan { cache_path: paths::runners_repos_path(), request: FetchRequest::RunnerRepositories })
            },
            RunnersViewLevel::Runners { owner, repo } => {
                if self.runners.data.is_loaded() {
                    return None;
                }
                Some(LoadPlan {
                    cache_path: None,
                    request: FetchRequest::Runners { owner: owner.clone(), repo: repo.clone() },
                })
            },
            RunnersViewLevel::Runs { owner, repo, .. } => {
                if self.runs.data.is_loaded() {
                    return None;
                }
                Some(LoadPlan {
                    cache_path: None,
                    request: FetchRequest::RepoRuns { owner: owner.clone(), repo: repo.clone() },
                })
            },
            RunnersViewLevel::Jobs { owner, repo, run_id, .. } => {
                if self.jobs.data.is_loaded() {
                    return None;
                }
                Some(LoadPlan {
                    cache_path: None,
                    request: FetchRequest::Jobs { owner: owner.clone(), repo: repo.clone(), run_id: *run_id },
                })
            },
            RunnersViewLevel::Logs { owner, repo, job_id, .. } => {
                if self.log_content.is_loaded() {
                    return None;
                }
                Some(LoadPlan {
                    cache_path: None,
                    request: FetchRequest::JobLogs { owner: owner.clone(), repo: repo.clone(), job_id: *job_id },
                })
            },
        }
    }
}

/// Whether fetched data for a request is cached as immutable (job logs,
/// which never change once written) rather than under the TTL.
pub fn cache_immutable(request: &FetchRequest) -> (r: bool)
    ensures
        r == (*request is JobLogs),
{
    match request {
        FetchRequest::JobLogs { .. } => true,
        _ => false,
    }
}

/// The owners list: the current user, then their organizations.
pub fn combine_owners(user: Owner, orgs: Vec<Owner>) -> (r: (Vec<Owner>, u64))
    ensures
        r.0@ == seq![user] + orgs@,
        r.1 == r.0@.len(),
{
    let ghost u = user;
    let mut owners: Vec<Owner> = Vec::new();
    owners.push(user);
    let mut rest = orgs;
    owners.append(&mut rest);
    assert(owners@ =~= seq![u] + orgs@);
    let n = owners.len() as u64;
    (owners, n)
}

/// A character with ASCII upper-case letters lowered.
pub open spec fn ascii_lower(c: char) -> char {
    if 'A' <= c && c <= 'Z' { (((c as u8) + 32) as u8) as char } else { c }
}

/// Whether two texts are equal when ASCII letters are compared without case.
pub open spec fn eq_ignore_ascii_case(a: Seq<char>, b: Seq<char>) -> bool {
    a.len() == b.len() && forall|i: int| 0 <= i < a.len() ==> ascii_lower(#[trigger] a[i]) == ascii_lower(b[i])
}

fn lower_ascii_char(c: char) -> (r: char)
    ensures
        r == ascii_lower(c),
{
    if 'A' <= c && c <= 'Z' {
        let b = c as u8;
        (b + 32) as char
    } else {
        c
    }
}

/// Whether two strings are equal when ASCII letters are compared without case.
pub fn str_eq_ignore_ascii_case(a: &str, b: &str) -> (r: bool)
    ensures
        r == eq_ignore_ascii_case(a@, b@),
{
    let n = a.unicode_len();
    if n != b.unicode_len() {
        return false;
    }
    let mut i: usize = 0;
    while i < n
        invariant
            n == a@.len(),
            n == b@.len(),
            i <= n,
            forall|j: int| 0 <= j < i ==> ascii_lower(#[trigger] a@[j]) == ascii_lower(b@[j]),
        decreases n - i,
    {
        if lower_ascii_char(a.get_char(i)) != lower_ascii_char(b.get_char(i)) {
            return false;
        }
        i = i + 1;
    }
    true
}

/// The repositories whose owner's login equals `owner` without regard to
/// ASCII case, in their order, with their count.
pub fn filter_repos_by_owner(repos: Vec<Repository>, owner: &str) -> (r: (Vec<Repository>, u64))
    ensures
        r.0@ == repos@.filter(|x: Repository| eq_ignore_ascii_case(x.owner.login@, owner@)),
        r.1 == r.0@.len(),
{
    let ghost pred = |x: Repository| eq_ignore_ascii_case(x.owner.login@, owner@);
    let ghost all = repos@;
    let total = repos.len();
    let mut rest = repos;
    let mut kept: Vec<Repository> = Vec::new();
    let mut i: usize = 0;
    while rest.len() > 0
        invariant
            all.len() == total,
            i <= all.len(),
            rest@ == all.subrange(i as int, all.len() as int),
            pred == (|x: Repository| eq_ignore_ascii_case(x.owner.login@, owner@)),
            kept@ == all.subrange(0, i as int).filter(pred),
        decreases rest@.len(),
    {
        let x = rest.remove(0);
        proof {
            let pre = all.subrange(0, i as int);
            assert(all.subrange(0, i + 1) =~= pre.push(x));
            pre.lemma_filter_push(x, pred);
        }
        if str_eq_ignore_ascii_case(x.owner.login.as_str(), owner) {
            kept.push(x);
        }
        i = i + 1;
    }
    assert(all.subrange(0, i as int) =~= all);
    let n = kept.len() as u64;
    (kept, n)
}

/// What a request loads, as named in failure messages.
pub open spec fn request_noun(r: FetchRequest) -> Seq<char> {
    match r {
        FetchRequest::Owners => "owners"@,
        FetchRequest::Repositories { .. } => "repositories"@,
        FetchRequest::Workflows { .. } => "workflows"@,
        FetchRequest::Runs { .. } => "runs"@,
        FetchRequest::Jobs { .. } => "jobs"@,
        FetchRequest::JobLogs { .. } => "logs"@,
        FetchRequest::RunnerRepositories => "repositories"@,
        FetchRequest::Runners { .. } => "runners"@,
        FetchRequest::RepoRuns { .. } => "runs"@,
    }
}

fn noun(r: &FetchRequest) -> (s: &'static str)
    ensures
        s@ == request_noun(*r),
{
    match r {
        FetchRequest::Owners => "owners",
        FetchRequest::Repositories { .. } => "repositories",
        FetchRequest::Workflows { .. } => "workflows",
        FetchRequest::Runs { .. } => "runs",
        FetchRequest::Jobs { .. } => "jobs",
        FetchRequest::JobLogs { .. } => "logs",
        FetchRequest::RunnerRepositories => "repositories",
        FetchRequest::Runners { .. } => "runners",
        FetchRequest::RepoRuns { .. } => "runs",
    }
}

/// The activity-log line for a failed load.
pub fn failure_message(request: &FetchRequest, message: &str) -> (r: String)
    ensures
        r@ == "Failed to load "@ + request_noun(*request) + ": "@ + message@,
{
    let mut s = concat_str("Failed to load ", noun(request));
    s.append(": ");
    s.append(message);
    s
}

/// Starts loading a log: a cached text is used as it is (logs never change);
/// otherwise the log is marked loading. Returns whether a fetch is needed.
pub fn begin_log_load(content: &mut LoadingState<String>, cached: Option<String>) -> (fetch: bool)
    ensures
        *old(content) is Loaded ==> !fetch && *final(content) == *old(content),
        !(*old(content) is Loaded) ==> match cached {
            Some(t) => !fetch && *final(content) == LoadingState::Loaded(t),
            None => fetch && *final(content) is Loading,
        },
{
    if content.is_loaded() {
        return false;
    }
    match cached {
        Some(t) => {
            *content = LoadingState::Loaded(t);
            false
        },
        None => {
            *content = LoadingState::Loading;
            true
        },
    }
}

/// Finishes loading a log: the fetched text, or the error's message, where a
/// missing log reads as expired or still running. Returns the activity-log
/// line on failure.
pub fn finish_log_load(content: &mut LoadingState<String>, result: Result<String, JoltError>) -> (r: Option<String>)
    ensures
        match result {
            Ok(t) => r is None && *final(content) == LoadingState::Loaded(t),
            Err(e) => {
                let m = if e is NotFound { logs_unavailable_text() } else { error_message(e) };
                &&& *final(content) is Error
                &&& (*final(content))->Error_0@ == m
                &&& r is Some
                &&& r->Some_0@ == "Failed to load logs: "@ + m
            },
        },
{
    match result {
        Ok(t) => {
            *content = LoadingState::Loaded(t);
            None
        },
        Err(e) => {
            let mapped = job_logs_error(e);
            let m = mapped.message();
            let line = concat_str("Failed to load logs: ", m.as_str());
            *content = LoadingState::Error(m);
            Some(line)
        },
    }
}

} // verus!
