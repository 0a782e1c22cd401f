//! Decisions around the REST client: which error a response status means,
//! the rate-limit figures it reports, the message for an undecodable body,
//! and what busy runners are running. The transport itself is the caller's.

use vstd::prelude::*;
use vstd::string::*;
use crate::error::JoltError;
use crate::loader::copy_opt;
use crate::text::{concat_str, decimal, digit_char, push_decimal};
use crate::types::{EnrichedRunner, Job, RateLimit, RunStatus, Runner, RunnerJobInfo, WorkflowRun};

verus! {

/// Largest Unix second that the clock library can show as a date.
pub const MAX_TIMESTAMP_SECS: u64 = 8210266876799;

/// Characters of a body kept in an error message.
pub const PREVIEW_CHARS: usize = 500;

/// Two decimal digits of a value below one hundred.
pub open spec fn two_digits(n: nat) -> Seq<char> {
    seq![digit_char(n / 10), digit_char(n % 10)]
}

/// `HH:MM:SS` (UTC) of a Unix second, or `unknown` past the clock's range.
pub open spec fn clock_text(secs: u64) -> Seq<char> {
    if secs > MAX_TIMESTAMP_SECS {
        "unknown"@
    } else {
        let d = secs as nat % 86400;
        two_digits(d / 3600) + seq![':'] + two_digits((d / 60) % 60) + seq![':'] + two_digits(d % 60)
    }
}

fn push_two_digits(s: &mut String, n: u64)
    requires
        n < 100,
    ensures
        final(s)@ == old(s)@ + two_digits(n as nat),
{
    let mut t = String::new();
    push_decimal(&mut t, n / 10);
    push_decimal(&mut t, n % 10);
    assert(t@ =~= two_digits(n as nat));
    s.append(t.as_str());
}

/// The time of day (UTC) at which a rate limit resets.
pub fn reset_clock(secs: u64) -> (r: String)
    ensures
        r@ == clock_text(secs),
{
    if secs > MAX_TIMESTAMP_SECS {
        return String::from_str("unknown");
    }
    let d = secs % 86400;
    let mut s = String::new();
    push_two_digits(&mut s, d / 3600);
    s.push(':');
    push_two_digits(&mut s, (d / 60) % 60);
    s.push(':');
    push_two_digits(&mut s, d % 60);
    assert(s@ =~= clock_text(secs));
    s
}

/// Checks a response: success statuses pass; 401 is `Unauthorized`; 404 is
/// `NotFound` with the address; 403 is `RateLimited` when no requests remain
/// (with the reset time), else `Other`; any other status is `Other` with the
/// status text and body.
pub fn check_response(status: u16, status_text: &str, url: String, body: &str, rate: &RateLimit) -> (r: Result<(), JoltError>)
    ensures
        (status == 200 || status == 201 || status == 202) <==> r is Ok,
        status == 401 ==> r == Err::<(), JoltError>(JoltError::Unauthorized),
        status == 404 ==> r == Err::<(), JoltError>(JoltError::NotFound(url)),
        status == 403 && rate.remaining == 0 ==> (r matches Err(JoltError::RateLimited { reset_at }) && reset_at@
            == clock_text(rate.reset)),
        status == 403 && rate.remaining != 0 ==> (r matches Err(JoltError::Other(m)) && m@ == "Forbidden: "@ + body@),
        !(status == 200 || status == 201 || status == 202 || status == 401 || status == 404 || status == 403) ==> (r matches Err(
            JoltError::Other(m),
        ) && m@ == "HTTP "@ + status_text@ + ": "@ + body@),
{
    if status == 200 || status == 201 || status == 202 {
        Ok(())
    } else if status == 401 {
        Err(JoltError::Unauthorized)
    } else if status == 404 {
        Err(JoltError::NotFound(url))
    } else if status == 403 {
        if rate.remaining == 0 {
            Err(JoltError::RateLimited { reset_at: reset_clock(rate.reset) })
        } else {
            Err(JoltError::Other(concat_str("Forbidden: ", body)))
        }
    } else {
        let mut m = concat_str("HTTP ", status_text);
        m.append(": ");
        m.append(body);
        Err(JoltError::Other(m))
    }
}

/// Takes the rate-limit figures a response reports; a header that is absent
/// or unreadable leaves its figure as it was.
pub fn update_rate_limit(rate: &mut RateLimit, limit: Option<u64>, remaining: Option<u64>, reset: Option<u64>)
    ensures
        final(rate).limit == match limit { Some(v) => v, None => old(rate).limit },
        final(rate).remaining == match remaining { Some(v) => v, None => old(rate).remaining },
        final(rate).reset == match reset { Some(v) => v, None => old(rate).reset },
{
    match limit {
        Some(v) => rate.limit = v,
        None => {},
    }
    match remaining {
        Some(v) => rate.remaining = v,
        None => {},
    }
    match reset {
        Some(v) => rate.reset = v,
        None => {},
    }
}

/// The message for a body that could not be decoded: the decoder's error and
/// the body's first 500 characters (followed by `...` when cut).
pub fn json_error_message(error: &str, body: &str) -> (r: JoltError)
    ensures
        r matches JoltError::Other(m) && m@ == "JSON parse error: "@ + error@ + ". Response: "@ + (if body@.len() > PREVIEW_CHARS {
            body@.subrange(0, PREVIEW_CHARS as int) + "..."@
        } else {
            body@
        }),
{
    let mut m = concat_str("JSON parse error: ", error);
    m.append(". Response: ");
    if body.unicode_len() > PREVIEW_CHARS {
        m.append(body.substring_char(0, PREVIEW_CHARS));
        m.append("...");
    } else {
        m.append(body);
    }
    JoltError::Other(m)
}

/// What each busy runner is running: for every in-progress job with a runner,
/// the runner's name and the job's details from its run. Later pairs win.
pub fn runner_job_infos(pairs: &Vec<(Job, WorkflowRun)>) -> (r: Vec<(String, RunnerJobInfo)>)
    ensures
        forall|k: int| #![trigger r@[k]] 0 <= k < r@.len() ==> exists|i: int| #![trigger pairs@[i]]
            0 <= i < pairs@.len() && pairs@[i].0.status == RunStatus::InProgress && pairs@[i].0.runner_name == Some(
                r@[k].0,
            ) && r@[k].1.job_name == pairs@[i].0.name && r@[k].1.started_at == pairs@[i].0.started_at,
{
    let mut out: Vec<(String, RunnerJobInfo)> = Vec::new();
    let ghost src: Seq<int> = Seq::empty();
    let mut i: usize = 0;
    while i < pairs.len()
        invariant
            i <= pairs@.len(),
            src.len() == out@.len(),
            forall|k: int| #![trigger out@[k]] 0 <= k < out@.len() ==> 0 <= src[k] < pairs@.len()
                && pairs@[src[k]].0.status == RunStatus::InProgress && pairs@[src[k]].0.runner_name == Some(out@[k].0)
                && out@[k].1.job_name == pairs@[src[k]].0.name && out@[k].1.started_at == pairs@[src[k]].0.started_at,
        decreases pairs@.len() - i,
    {
        let job = &pairs[i].0;
        let run = &pairs[i].1;
        let busy = match job.status {
            RunStatus::InProgress => true,
            _ => false,
        };
        if busy {
            match &job.runner_name {
                Some(name) => {
                    let info = RunnerJobInfo {
                        pr_number: if run.pull_requests.len() > 0 { Some(run.pull_requests[0].number) } else { None },
                        branch: copy_opt(&run.head_branch),
                        started_at: job.started_at,
                        job_name: job.name.clone(),
                    };
                    out.push((name.clone(), info));
                    proof {
                        src = src.push(i as int);
                    }
                },
                None => {},
            }
        }
        i = i + 1;
    }
    assert forall|k: int| #![trigger out@[k]] 0 <= k < out@.len() implies exists|j: int| #![trigger pairs@[j]]
        0 <= j < pairs@.len() && pairs@[j].0.status == RunStatus::InProgress && pairs@[j].0.runner_name == Some(out@[k].0)
            && out@[k].1.job_name == pairs@[j].0.name && out@[k].1.started_at == pairs@[j].0.started_at by {
        let j = src[k];
        assert(pairs@[j].0.runner_name == Some(out@[k].0));
    }
    out
}

/// Runners with no job information yet.
pub fn plain_runners(runners: Vec<Runner>) -> (r: Vec<EnrichedRunner>)
    ensures
        r@.len() == runners@.len(),
        forall|k: int| 0 <= k < r@.len() ==> (#[trigger] r@[k]).runner == runners@[k] && r@[k].current_job is None,
{
    let ghost all = runners@;
    let total = runners.len();
    let mut rest = runners;
    let mut out: Vec<EnrichedRunner> = Vec::new();
    while rest.len() > 0
        invariant
            all.len() == total,
            out@.len() + rest@.len() == all.len(),
            rest@ == all.subrange(out@.len() as int, all.len() as int),
            forall|k: int| 0 <= k < out@.len() ==> (#[trigger] out@[k]).runner == all[k] && out@[k].current_job is None,
        decreases rest@.len(),
    {
        let r = rest.remove(0);
        out.push(EnrichedRunner { runner: r, current_job: None });
    }
    out
}

/// The job information given last for the runner named `name`.
pub open spec fn last_info(infos: Seq<(String, RunnerJobInfo)>, name: Seq<char>) -> Option<RunnerJobInfo>
    decreases infos.len(),
{
    if infos.len() == 0 {
        None
    } else if infos.last().0@ == name {
        Some(infos.last().1)
    } else {
        last_info(infos.drop_last(), name)
    }
}

fn copy_info(i: &RunnerJobInfo) -> (r: RunnerJobInfo)
    ensures
        r == *i,
{
    RunnerJobInfo { pr_number: i.pr_number, branch: copy_opt(&i.branch), started_at: i.started_at, job_name: i.job_name.clone() }
}

/// The job information given last for the runner named `name`.
pub fn find_job_info(infos: &Vec<(String, RunnerJobInfo)>, name: &str) -> (r: Option<RunnerJobInfo>)
    ensures
        r == last_info(infos@, name@),
{
    let mut j = infos.len();
    assert(infos@.subrange(0, j as int) =~= infos@);
    while j > 0
        invariant
            j <= infos@.len(),
            last_info(infos@, name@) == last_info(infos@.subrange(0, j as int), name@),
        decreases j,
    {
        let ghost pre = infos@.subrange(0, j as int);
        assert(pre.drop_last() =~= infos@.subrange(0, j - 1));
        if crate::favorites::str_eq(infos[j - 1].0.as_str(), name) {
            return Some(copy_info(&infos[j - 1].1));
        }
        j = j - 1;
    }
    None
}

/// Gives each runner the job information given last for its name, or none.
pub fn attach_job_infos(runners: &mut Vec<EnrichedRunner>, infos: &Vec<(String, RunnerJobInfo)>)
    ensures
        final(runners)@.len() == old(runners)@.len(),
        forall|k: int| 0 <= k < final(runners)@.len() ==> (#[trigger] final(runners)@[k]).runner == old(runners)@[k].runner
            && final(runners)@[k].current_job == last_info(infos@, old(runners)@[k].runner.name@),
{
    let mut rest: Vec<EnrichedRunner> = Vec::new();
    std::mem::swap(runners, &mut rest);
    let ghost all = rest@;
    let total = rest.len();
    let mut out: Vec<EnrichedRunner> = Vec::new();
    while rest.len() > 0
        invariant
            all == old(runners)@,
            all.len() == total,
            out@.len() + rest@.len() == all.len(),
            rest@ == all.subrange(out@.len() as int, all.len() as int),
            forall|k: int| 0 <= k < out@.len() ==> (#[trigger] out@[k]).runner == all[k].runner
                && out@[k].current_job == last_info(infos@, all[k].runner.name@),
        decreases rest@.len(),
    {
        let e = rest.remove(0);
        let info = find_job_info(infos, e.runner.name.as_str());
        out.push(EnrichedRunner { runner: e.runner, current_job: info });
    }
    *runners = out;
}

} // verus!
