//! Resource types of the CI provider. Timestamps are Unix milliseconds.

use vstd::prelude::*;

verus! {

/// Owner type discriminator (user or organization).
#[derive(Clone, Copy, Debug, PartialEq, Eq, Structural)]
pub enum OwnerType {
    User,
    Organization,
    Bot,
    Unknown,
}

impl Default for OwnerType {
    fn default() -> (r: Self)
        ensures
            r == OwnerType::Organization,
    {
        OwnerType::Organization
    }
}

/// A user or organization.
#[derive(Clone, Debug)]
pub struct Owner {
    pub id: u64,
    pub login: String,
    pub owner_type: OwnerType,
    pub avatar_url: Option<String>,
}

/// A repository.
#[derive(Clone, Debug)]
pub struct Repository {
    pub id: u64,
    pub name: String,
    pub full_name: String,
    pub owner: Owner,
    pub private: bool,
    pub description: Option<String>,
    pub updated_at: i64,
    pub pushed_at: Option<i64>,
}

/// A workflow definition.
#[derive(Clone, Debug)]
pub struct Workflow {
    pub id: u64,
    pub name: String,
    pub path: String,
    pub state: WorkflowState,
    pub created_at: i64,
    pub updated_at: i64,
}

/// Workflow state.
#[derive(Clone, Copy, Debug, PartialEq, Eq, Structural)]
pub enum WorkflowState {
    Active,
    Deleted,
    DisabledFork,
    DisabledInactivity,
    DisabledManually,
    Unknown,
}

/// One run of a workflow.
#[derive(Clone, Debug)]
pub struct WorkflowRun {
    pub id: u64,
    pub name: Option<String>,
    pub run_number: u64,
    pub run_attempt: Option<u64>,
    pub status: RunStatus,
    pub conclusion: Option<RunConclusion>,
    pub workflow_id: u64,
    pub head_branch: Option<String>,
    pub head_sha: String,
    pub created_at: i64,
    pub updated_at: i64,
    pub html_url: String,
    pub pull_requests: Vec<PullRequestRef>,
}

/// Run or job status.
#[derive(Clone, Copy, Debug, PartialEq, Eq, Structural)]
pub enum RunStatus {
    Queued,
    InProgress,
    Completed,
    Waiting,
    Requested,
    Pending,
    Unknown,
}

/// Run or job conclusion.
#[derive(Clone, Copy, Debug, PartialEq, Eq, Structural)]
pub enum RunConclusion {
    Success,
    Failure,
    Cancelled,
    Skipped,
    TimedOut,
    ActionRequired,
    Neutral,
    Stale,
    StartupFailure,
    Unknown,
}

/// A pull request that a run belongs to.
#[derive(Clone, Debug)]
pub struct PullRequestRef {
    pub number: u64,
    pub head: GitRef,
    pub base: GitRef,
}

/// A branch and commit.
#[derive(Clone, Debug)]
pub struct GitRef {
    pub ref_name: String,
    pub sha: String,
}

/// A job within a workflow run.
#[derive(Clone, Debug)]
pub struct Job {
    pub id: u64,
    pub run_id: u64,
    pub name: String,
    pub status: RunStatus,
    pub conclusion: Option<RunConclusion>,
    pub started_at: Option<i64>,
    pub completed_at: Option<i64>,
    pub html_url: String,
    pub steps: Vec<Step>,
    pub runner_name: Option<String>,
}

/// A step within a job.
#[derive(Clone, Debug)]
pub struct Step {
    pub name: String,
    pub status: RunStatus,
    pub conclusion: Option<RunConclusion>,
    pub number: u64,
}

/// A self-hosted runner.
#[derive(Clone, Debug)]
pub struct Runner {
    pub id: u64,
    pub name: String,
    pub os: String,
    pub status: RunnerStatus,
    pub busy: bool,
    pub labels: Vec<RunnerLabel>,
}

/// A runner with what it is working on.
#[derive(Clone, Debug)]
pub struct EnrichedRunner {
    pub runner: Runner,
    pub current_job: Option<RunnerJobInfo>,
}

/// The job that a busy runner is executing.
#[derive(Clone, Debug)]
pub struct RunnerJobInfo {
    pub pr_number: Option<u64>,
    pub branch: Option<String>,
    pub started_at: Option<i64>,
    pub job_name: String,
}

/// Runner status.
#[derive(Clone, Copy, Debug, PartialEq, Eq, Structural)]
pub enum RunnerStatus {
    Online,
    Offline,
    Unknown,
}

/// A runner label.
#[derive(Clone, Debug)]
pub struct RunnerLabel {
    pub id: Option<u64>,
    pub name: String,
    pub label_type: Option<String>,
}

/// One page of a list endpoint.
#[derive(Clone, Debug)]
pub struct ListResponse<T> {
    pub total_count: u64,
    pub items: Vec<T>,
}

/// Rate limit figures from response headers.
#[derive(Clone, Copy, Debug, PartialEq, Eq, Structural)]
pub struct RateLimit {
    pub limit: u64,
    pub remaining: u64,
    pub reset: u64,
}

impl Default for RateLimit {
    fn default() -> (r: Self)
        ensures
            r.limit == 0 && r.remaining == 0 && r.reset == 0,
    {
        RateLimit { limit: 0, remaining: 0, reset: 0 }
    }
}

fn copy_text_opt(s: &Option<String>) -> (r: Option<String>)
    ensures
        r == *s,
{
    match s {
        Some(x) => Some(x.clone()),
        None => None,
    }
}

impl Step {
    /// An equal copy of this step.
    pub fn duplicate(&self) -> (r: Step)
        ensures
            r == *self,
    {
        Step { name: self.name.clone(), status: self.status, conclusion: self.conclusion, number: self.number }
    }
}

/// Two jobs that agree in every field, their steps as a sequence.
pub open spec fn same_job(a: Job, b: Job) -> bool {
    a.id == b.id && a.run_id == b.run_id && a.name == b.name && a.status == b.status && a.conclusion == b.conclusion
        && a.started_at == b.started_at && a.completed_at == b.completed_at && a.html_url == b.html_url
        && a.steps@ == b.steps@ && a.runner_name == b.runner_name
}

impl Job {
    /// A copy of this job that agrees with it in every field.
    pub fn duplicate(&self) -> (r: Job)
        ensures
            same_job(r, *self),
    {
        let mut steps: Vec<Step> = Vec::new();
        let mut i: usize = 0;
        while i < self.steps.len()
            invariant
                i <= self.steps@.len(),
                steps@ == self.steps@.subrange(0, i as int),
            decreases self.steps@.len() - i,
        {
            steps.push(self.steps[i].duplicate());
            assert(steps@ =~= self.steps@.subrange(0, i + 1));
            i = i + 1;
        }
        assert(steps@ =~= self.steps@);
        Job {
            id: self.id,
            run_id: self.run_id,
            name: self.name.clone(),
            status: self.status,
            conclusion: self.conclusion,
            started_at: self.started_at,
            completed_at: self.completed_at,
            html_url: self.html_url.clone(),
            steps,
            runner_name: copy_text_opt(&self.runner_name),
        }
    }
}

/// A copy of a list of jobs that agrees with it job by job.
pub fn copy_jobs(jobs: &Vec<Job>) -> (r: Vec<Job>)
    ensures
        r@.len() == jobs@.len(),
        forall|k: int| 0 <= k < r@.len() ==> same_job(#[trigger] r@[k], jobs@[k]),
{
    let mut out: Vec<Job> = Vec::new();
    let mut i: usize = 0;
    while i < jobs.len()
        invariant
            i <= jobs@.len(),
            out@.len() == i,
            forall|k: int| 0 <= k < i ==> same_job(#[trigger] out@[k], jobs@[k]),
        decreases jobs@.len() - i,
    {
        out.push(jobs[i].duplicate());
        i = i + 1;
    }
    out
}

} // verus!
