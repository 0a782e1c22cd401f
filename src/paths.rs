//! Cache path hierarchy: every cached resource has a fixed place under the
//! cache directory that mirrors owner → repository → workflow → run → job.

use vstd::prelude::*;
use vstd::string::*;
use crate::text::{decimal, decimal_text};

verus! {

/// Characters that cannot stand in a path segment.
pub open spec fn unsafe_char(c: char) -> bool {
    c == '/' || c == '\\' || c == ':' || c == '*' || c == '?' || c == '"' || c == '<' || c == '>'
        || c == '|'
}

/// A name with each path-unsafe character replaced by `_`.
pub open spec fn sanitized(s: Seq<char>) -> Seq<char> {
    s.map_values(|c: char| if unsafe_char(c) { '_' } else { c })
}

/// `dir` followed by a separator and `name`.
pub open spec fn joined(dir: Seq<char>, name: Seq<char>) -> Seq<char> {
    dir.push('/') + name
}

/// Whether `p` ends with a separator followed by the relative path `rel`.
pub open spec fn ends_with_path(p: Seq<char>, rel: Seq<char>) -> bool {
    p.len() > rel.len() && p.subrange(p.len() - rel.len() - 1, p.len() as int) == seq!['/'] + rel
}

pub open spec fn owner_dir_rel(owner: Seq<char>) -> Seq<char> {
    joined("owners"@, sanitized(owner))
}

pub open spec fn repo_dir_rel(owner: Seq<char>, repo: Seq<char>) -> Seq<char> {
    joined(joined(owner_dir_rel(owner), "repos"@), sanitized(repo))
}

pub open spec fn workflow_dir_rel(owner: Seq<char>, repo: Seq<char>, workflow_id: u64) -> Seq<char> {
    joined(joined(repo_dir_rel(owner, repo), "workflows"@), decimal(workflow_id as nat))
}

pub open spec fn run_dir_rel(owner: Seq<char>, repo: Seq<char>, workflow_id: u64, run_id: u64) -> Seq<
    char,
> {
    joined(joined(workflow_dir_rel(owner, repo, workflow_id), "runs"@), decimal(run_id as nat))
}

pub open spec fn job_dir_rel(
    owner: Seq<char>,
    repo: Seq<char>,
    workflow_id: u64,
    run_id: u64,
    job_id: u64,
) -> Seq<char> {
    joined(joined(run_dir_rel(owner, repo, workflow_id, run_id), "jobs"@), decimal(job_id as nat))
}

/// Appending a segment keeps a path's relative suffix as a suffix.
pub proof fn lemma_join_extends(p: Seq<char>, rel: Seq<char>, name: Seq<char>)
    requires
        ends_with_path(p, rel),
    ensures
        ends_with_path(joined(p, name), joined(rel, name)),
{
    let q = joined(p, name);
    let r = joined(rel, name);
    assert(q.subrange(q.len() - r.len() - 1, q.len() as int) =~= p.subrange(
        p.len() - rel.len() - 1,
        p.len() as int,
    ).push('/') + name);
    assert(seq!['/'] + r =~= (seq!['/'] + rel).push('/') + name);
}

/// The directory separator followed by a segment.
pub fn join(dir: String, name: &str) -> (r: String)
    ensures
        r@ == joined(dir@, name@),
{
    let mut d = dir;
    d.push('/');
    d.append(name);
    d
}

/// Relies on `directories::ProjectDirs::from` and `ProjectDirs::cache_dir`: the
/// per-user cache directory of this application, where the platform has one.
#[verifier::external_body]
fn platform_cache_dir() -> (r: Option<String>) {
    directories::ProjectDirs::from("", "", "jolt").map(
        |d| d.cache_dir().to_string_lossy().into_owned(),
    )
}

/// The base cache directory, where the platform has one.
pub fn cache_dir() -> (r: Option<String>) {
    platform_cache_dir()
}

/// `rel` placed under the cache directory.
fn in_cache(rel: String) -> (r: Option<String>)
    ensures
        r matches Some(p) ==> ends_with_path(p@, rel@),
{
    match cache_dir() {
        Some(d) => {
            let p = join(d, rel.as_str());
            assert(p@.subrange(p@.len() - rel@.len() - 1, p@.len() as int) =~= seq!['/'] + rel@);
            Some(p)
        },
        None => None,
    }
}

/// A name with each path-unsafe character (`/ \ : * ? " < > |`) replaced by `_`.
pub fn sanitize_name(name: &str) -> (r: String)
    ensures
        r@ == sanitized(name@),
{
    let n = name.unicode_len();
    let mut out = String::new();
    let mut i: usize = 0;
    while i < n
        invariant
            n == name@.len(),
            i <= n,
            out@ == sanitized(name@.subrange(0, i as int)),
        decreases n - i,
    {
        let c = name.get_char(i);
        let m = if c == '/' || c == '\\' || c == ':' || c == '*' || c == '?' || c == '"' || c == '<'
            || c == '>' || c == '|' {
            '_'
        } else {
            c
        };
        out.push(m);
        assert(name@.subrange(0, i + 1) =~= name@.subrange(0, i as int).push(c));
        assert(out@ =~= sanitized(name@.subrange(0, i + 1)));
        i = i + 1;
    }
    assert(name@.subrange(0, n as int) =~= name@);
    out
}

/// Path to the application state file.
pub fn state_path() -> (r: Option<String>)
    ensures
        r matches Some(p) ==> ends_with_path(p@, "state.json"@),
{
    in_cache(String::from_str("state.json"))
}

/// Path to the cached list of repositories shown on the runners tab.
pub fn runners_repos_path() -> (r: Option<String>)
    ensures
        r matches Some(p) ==> ends_with_path(p@, "runners_repos.json"@),
{
    in_cache(String::from_str("runners_repos.json"))
}

/// Path to the cached owners list (the user and their organizations).
pub fn owners_list_path() -> (r: Option<String>)
    ensures
        r matches Some(p) ==> ends_with_path(p@, "owners.json"@),
{
    in_cache(String::from_str("owners.json"))
}

/// Path to an owner's directory.
pub fn owner_dir(owner: &str) -> (r: Option<String>)
    ensures
        r matches Some(p) ==> ends_with_path(p@, owner_dir_rel(owner@)),
{
    let rel = join(String::from_str("owners"), sanitize_name(owner).as_str());
    in_cache(rel)
}

/// `name` under a directory that ends with `rel`.
fn extend(dir: Option<String>, name: &str, Ghost(rel): Ghost<Seq<char>>) -> (r: Option<String>)
    requires
        dir matches Some(d) ==> ends_with_path(d@, rel),
    ensures
        r matches Some(p) ==> ends_with_path(p@, joined(rel, name@)),
{
    match dir {
        Some(d) => {
            proof {
                lemma_join_extends(d@, rel, name@);
            }
            Some(join(d, name))
        },
        None => None,
    }
}

/// Path to an owner's metadata file.
pub fn owner_path(owner: &str) -> (r: Option<String>)
    ensures
        r matches Some(p) ==> ends_with_path(p@, joined(owner_dir_rel(owner@), "owner.json"@)),
{
    extend(owner_dir(owner), "owner.json", Ghost(owner_dir_rel(owner@)))
}

/// Path to an owner's cached repository list.
pub fn repos_list_path(owner: &str) -> (r: Option<String>)
    ensures
        r matches Some(p) ==> ends_with_path(p@, joined(owner_dir_rel(owner@), "repos.json"@)),
{
    extend(owner_dir(owner), "repos.json", Ghost(owner_dir_rel(owner@)))
}

/// Path to a repository's directory.
pub fn repo_dir(owner: &str, repo: &str) -> (r: Option<String>)
    ensures
        r matches Some(p) ==> ends_with_path(p@, repo_dir_rel(owner@, repo@)),
{
    let d = extend(owner_dir(owner), "repos", Ghost(owner_dir_rel(owner@)));
    let name = sanitize_name(repo);
    extend(d, name.as_str(), Ghost(joined(owner_dir_rel(owner@), "repos"@)))
}

/// Path to a repository's metadata file.
pub fn repo_path(owner: &str, repo: &str) -> (r: Option<String>)
    ensures
        r matches Some(p) ==> ends_with_path(p@, joined(repo_dir_rel(owner@, repo@), "repo.json"@)),
{
    extend(repo_dir(owner, repo), "repo.json", Ghost(repo_dir_rel(owner@, repo@)))
}

/// Path to a repository's runners directory.
pub fn runners_dir(owner: &str, repo: &str) -> (r: Option<String>)
    ensures
        r matches Some(p) ==> ends_with_path(p@, joined(repo_dir_rel(owner@, repo@), "runners"@)),
{
    extend(repo_dir(owner, repo), "runners", Ghost(repo_dir_rel(owner@, repo@)))
}

/// Path to a runner's metadata file.
pub fn runner_path(owner: &str, repo: &str, runner_id: u64) -> (r: Option<String>)
    ensures
        r matches Some(p) ==> ends_with_path(
            p@,
            joined(joined(repo_dir_rel(owner@, repo@), "runners"@), decimal(runner_id as nat) + ".json"@),
        ),
{
    let mut name = decimal_text(runner_id);
    name.append(".json");
    extend(runners_dir(owner, repo), name.as_str(), Ghost(joined(repo_dir_rel(owner@, repo@), "runners"@)))
}

/// Path to a repository's workflows directory.
pub fn workflows_dir(owner: &str, repo: &str) -> (r: Option<String>)
    ensures
        r matches Some(p) ==> ends_with_path(p@, joined(repo_dir_rel(owner@, repo@), "workflows"@)),
{
    extend(repo_dir(owner, repo), "workflows", Ghost(repo_dir_rel(owner@, repo@)))
}

/// Path to a repository's cached workflow list.
pub fn workflows_list_path(owner: &str, repo: &str) -> (r: Option<String>)
    ensures
        r matches Some(p) ==> ends_with_path(p@, joined(repo_dir_rel(owner@, repo@), "workflows.json"@)),
{
    extend(repo_dir(owner, repo), "workflows.json", Ghost(repo_dir_rel(owner@, repo@)))
}

/// Path to a workflow's directory.
pub fn workflow_dir(owner: &str, repo: &str, workflow_id: u64) -> (r: Option<String>)
    ensures
        r matches Some(p) ==> ends_with_path(p@, workflow_dir_rel(owner@, repo@, workflow_id)),
{
    let id = decimal_text(workflow_id);
    extend(workflows_dir(owner, repo), id.as_str(), Ghost(joined(repo_dir_rel(owner@, repo@), "workflows"@)))
}

/// Path to a workflow's metadata file.
pub fn workflow_path(owner: &str, repo: &str, workflow_id: u64) -> (r: Option<String>)
    ensures
        r matches Some(p) ==> ends_with_path(
            p@,
            joined(workflow_dir_rel(owner@, repo@, workflow_id), "workflow.json"@),
        ),
{
    extend(workflow_dir(owner, repo, workflow_id), "workflow.json", Ghost(workflow_dir_rel(owner@, repo@, workflow_id)))
}

/// Path to a workflow's runs directory.
pub fn runs_dir(owner: &str, repo: &str, workflow_id: u64) -> (r: Option<String>)
    ensures
        r matches Some(p) ==> ends_with_path(p@, joined(workflow_dir_rel(owner@, repo@, workflow_id), "runs"@)),
{
    extend(workflow_dir(owner, repo, workflow_id), "runs", Ghost(workflow_dir_rel(owner@, repo@, workflow_id)))
}

/// Path to a workflow's cached run list.
pub fn runs_list_path(owner: &str, repo: &str, workflow_id: u64) -> (r: Option<String>)
    ensures
        r matches Some(p) ==> ends_with_path(
            p@,
            joined(workflow_dir_rel(owner@, repo@, workflow_id), "runs.json"@),
        ),
{
    extend(workflow_dir(owner, repo, workflow_id), "runs.json", Ghost(workflow_dir_rel(owner@, repo@, workflow_id)))
}

/// Path to a workflow run's directory.
pub fn run_dir(owner: &str, repo: &str, workflow_id: u64, run_id: u64) -> (r: Option<String>)
    ensures
        r matches Some(p) ==> ends_with_path(p@, run_dir_rel(owner@, repo@, workflow_id, run_id)),
{
    let id = decimal_text(run_id);
    extend(runs_dir(owner, repo, workflow_id), id.as_str(), Ghost(joined(workflow_dir_rel(owner@, repo@, workflow_id), "runs"@)))
}

/// Path to a workflow run's metadata file.
pub fn run_path(owner: &str, repo: &str, workflow_id: u64, run_id: u64) -> (r: Option<String>)
    ensures
        r matches Some(p) ==> ends_with_path(
            p@,
            joined(run_dir_rel(owner@, repo@, workflow_id, run_id), "run.json"@),
        ),
{
    extend(run_dir(owner, repo, workflow_id, run_id), "run.json", Ghost(run_dir_rel(owner@, repo@, workflow_id, run_id)))
}

/// Path to a workflow run's jobs directory.
pub fn jobs_dir(owner: &str, repo: &str, workflow_id: u64, run_id: u64) -> (r: Option<String>)
    ensures
        r matches Some(p) ==> ends_with_path(
            p@,
            joined(run_dir_rel(owner@, repo@, workflow_id, run_id), "jobs"@),
        ),
{
    extend(run_dir(owner, repo, workflow_id, run_id), "jobs", Ghost(run_dir_rel(owner@, repo@, workflow_id, run_id)))
}

/// Path to a workflow run's cached job list.
pub fn jobs_list_path(owner: &str, repo: &str, workflow_id: u64, run_id: u64) -> (r: Option<String>)
    ensures
        r matches Some(p) ==> ends_with_path(
            p@,
            joined(run_dir_rel(owner@, repo@, workflow_id, run_id), "jobs.json"@),
        ),
{
    extend(run_dir(owner, repo, workflow_id, run_id), "jobs.json", Ghost(run_dir_rel(owner@, repo@, workflow_id, run_id)))
}

/// Path to a job's directory.
pub fn job_dir(owner: &str, repo: &str, workflow_id: u64, run_id: u64, job_id: u64) -> (r: Option<String>)
    ensures
        r matches Some(p) ==> ends_with_path(p@, job_dir_rel(owner@, repo@, workflow_id, run_id, job_id)),
{
    let id = decimal_text(job_id);
    extend(jobs_dir(owner, repo, workflow_id, run_id), id.as_str(), Ghost(joined(run_dir_rel(owner@, repo@, workflow_id, run_id), "jobs"@)))
}

/// Path to a job's metadata file.
pub fn job_path(owner: &str, repo: &str, workflow_id: u64, run_id: u64, job_id: u64) -> (r: Option<String>)
    ensures
        r matches Some(p) ==> ends_with_path(
            p@,
            joined(job_dir_rel(owner@, repo@, workflow_id, run_id, job_id), "job.json"@),
        ),
{
    extend(job_dir(owner, repo, workflow_id, run_id, job_id), "job.json", Ghost(job_dir_rel(owner@, repo@, workflow_id, run_id, job_id)))
}

/// Path to a job's log file.
pub fn job_log_path(owner: &str, repo: &str, workflow_id: u64, run_id: u64, job_id: u64) -> (r: Option<String>)
    ensures
        r matches Some(p) ==> ends_with_path(
            p@,
            joined(job_dir_rel(owner@, repo@, workflow_id, run_id, job_id), "log.txt"@),
        ),
{
    extend(job_dir(owner, repo, workflow_id, run_id, job_id), "log.txt", Ghost(job_dir_rel(owner@, repo@, workflow_id, run_id, job_id)))
}

} // verus!
