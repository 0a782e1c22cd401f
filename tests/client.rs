use jolt::client::{check_response, json_error_message, plain_runners, reset_clock, runner_job_infos, update_rate_limit};
use jolt::error::JoltError;
use jolt::types::{EnrichedRunner, RunnerJobInfo, Job, PullRequestRef, GitRef, RateLimit, RunStatus, Runner, RunnerStatus, WorkflowRun};

fn rate(remaining: u64, reset: u64) -> RateLimit {
    RateLimit { limit: 5000, remaining, reset }
}

#[test]
fn statuses_map_to_errors() {
    assert!(check_response(200, "200 OK", "u".to_string(), "", &rate(1, 0)).is_ok());
    assert!(matches!(check_response(401, "401", "u".to_string(), "", &rate(1, 0)), Err(JoltError::Unauthorized)));
    assert!(matches!(check_response(404, "404", "https://x/y".to_string(), "", &rate(1, 0)), Err(JoltError::NotFound(u)) if u == "https://x/y"));
    match check_response(403, "403", "u".to_string(), "", &rate(0, 3723)) {
        Err(JoltError::RateLimited { reset_at }) => assert_eq!(reset_at, "01:02:03"),
        other => panic!("unexpected {:?}", other),
    }
    match check_response(403, "403", "u".to_string(), "nope", &rate(3, 0)) {
        Err(JoltError::Other(m)) => assert_eq!(m, "Forbidden: nope"),
        other => panic!("unexpected {:?}", other),
    }
    match check_response(500, "500 Internal Server Error", "u".to_string(), "x", &rate(3, 0)) {
        Err(JoltError::Other(m)) => assert_eq!(m, "HTTP 500 Internal Server Error: x"),
        other => panic!("unexpected {:?}", other),
    }
}

#[test]
fn reset_time_of_day() {
    assert_eq!(reset_clock(0), "00:00:00");
    assert_eq!(reset_clock(1_700_000_000), "22:13:20");
    assert_eq!(reset_clock(u64::MAX), "unknown");
}

#[test]
fn rate_limit_keeps_missing_figures() {
    let mut r = rate(10, 20);
    update_rate_limit(&mut r, None, Some(9), None);
    assert_eq!(r, RateLimit { limit: 5000, remaining: 9, reset: 20 });
}

#[test]
fn long_bodies_are_cut_in_decode_errors() {
    let body = "x".repeat(600);
    match json_error_message("bad", &body) {
        JoltError::Other(m) => {
            assert!(m.starts_with("JSON parse error: bad. Response: xxx"));
            assert!(m.ends_with("x..."));
            assert_eq!(m.len(), "JSON parse error: bad. Response: ".len() + 503);
        }
        _ => panic!("expected Other"),
    }
    match json_error_message("bad", "{}") {
        JoltError::Other(m) => assert_eq!(m, "JSON parse error: bad. Response: {}"),
        _ => panic!("expected Other"),
    }
}

#[test]
fn busy_runners_get_their_job() {
    let run = WorkflowRun {
        id: 1,
        name: None,
        run_number: 3,
        run_attempt: None,
        status: RunStatus::InProgress,
        conclusion: None,
        workflow_id: 2,
        head_branch: Some("main".to_string()),
        head_sha: "abc".to_string(),
        created_at: 0,
        updated_at: 0,
        html_url: String::new(),
        pull_requests: vec![PullRequestRef {
            number: 17,
            head: GitRef { ref_name: "f".to_string(), sha: "1".to_string() },
            base: GitRef { ref_name: "main".to_string(), sha: "2".to_string() },
        }],
    };
    let job = |status, runner: Option<&str>| Job {
        id: 5,
        run_id: 1,
        name: "build".to_string(),
        status,
        conclusion: None,
        started_at: Some(9),
        completed_at: None,
        html_url: String::new(),
        steps: Vec::new(),
        runner_name: runner.map(|s| s.to_string()),
    };
    let pairs = vec![
        (job(RunStatus::InProgress, Some("mac-1")), run.clone()),
        (job(RunStatus::Completed, Some("mac-2")), run.clone()),
        (job(RunStatus::InProgress, None), run),
    ];
    let infos = runner_job_infos(&pairs);
    assert_eq!(infos.len(), 1);
    assert_eq!(infos[0].0, "mac-1");
    assert_eq!(infos[0].1.pr_number, Some(17));
    assert_eq!(infos[0].1.branch, Some("main".to_string()));
    let runners = plain_runners(vec![Runner { id: 1, name: "mac-1".to_string(), os: "macOS".to_string(), status: RunnerStatus::Online, busy: true, labels: Vec::new() }]);
    assert!(runners[0].current_job.is_none());
}

#[test]
fn runners_get_the_last_info_for_their_name() {
    let info = |job: &str| RunnerJobInfo { pr_number: None, branch: None, started_at: None, job_name: job.to_string() };
    let runner = |name: &str| EnrichedRunner {
        runner: Runner { id: 1, name: name.to_string(), os: "linux".to_string(), status: RunnerStatus::Online, busy: true, labels: Vec::new() },
        current_job: None,
    };
    let mut runners = vec![runner("a"), runner("b")];
    let infos = vec![("a".to_string(), info("first")), ("a".to_string(), info("second"))];
    jolt::client::attach_job_infos(&mut runners, &infos);
    assert_eq!(runners[0].current_job.as_ref().unwrap().job_name, "second");
    assert!(runners[1].current_job.is_none());
}
