use jolt::paths::{
    job_log_path, job_path, owner_path, repo_path, run_path, sanitize_name, workflow_path,
    owners_list_path, state_path,
};

#[test]
fn test_sanitize_name() {
    assert_eq!(sanitize_name("simple"), "simple");
    assert_eq!(sanitize_name("with/slash"), "with_slash");
    assert_eq!(sanitize_name("owner:name"), "owner_name");
}

#[test]
fn test_cache_paths() {
    let owner = "phatblat";
    let repo = "jolt";
    let workflow_id = 12345u64;
    let run_id = 67890u64;
    let job_id = 11111u64;

    let owner_p = owner_path(owner).unwrap();
    assert!(owner_p.ends_with("owners/phatblat/owner.json"));

    let repo_p = repo_path(owner, repo).unwrap();
    assert!(repo_p.ends_with("owners/phatblat/repos/jolt/repo.json"));

    let workflow_p = workflow_path(owner, repo, workflow_id).unwrap();
    assert!(workflow_p.ends_with("workflows/12345/workflow.json"));

    let run_p = run_path(owner, repo, workflow_id, run_id).unwrap();
    assert!(run_p.ends_with("runs/67890/run.json"));

    let job_p = job_path(owner, repo, workflow_id, run_id, job_id).unwrap();
    assert!(job_p.ends_with("jobs/11111/job.json"));

    let log_p = job_log_path(owner, repo, workflow_id, run_id, job_id).unwrap();
    assert!(log_p.ends_with("jobs/11111/log.txt"));
}

#[test]
fn sanitize_replaces_every_unsafe_character() {
    assert_eq!(sanitize_name("a\\b*c?d\"e<f>g|h"), "a_b_c_d_e_f_g_h");
    assert_eq!(sanitize_name(""), "");
}

#[test]
fn names_are_sanitized_inside_paths() {
    let p = repo_path("my:org", "a/b").unwrap();
    assert!(p.ends_with("/owners/my_org/repos/a_b/repo.json"));
}

#[test]
fn cache_paths_lie_under_the_cache_directory() {
    let base = jolt::paths::cache_dir().unwrap();
    assert_eq!(state_path().unwrap(), format!("{}/state.json", base));
    assert_eq!(owners_list_path().unwrap(), format!("{}/owners.json", base));
    assert!(base.len() > 0);
}

#[test]
fn decimal_ids_have_no_padding() {
    let p = job_log_path("o", "r", 0, 7, 1000000).unwrap();
    assert!(p.ends_with("/owners/o/repos/r/workflows/0/runs/7/jobs/1000000/log.txt"));
    assert_eq!(jolt::text::decimal_text(18446744073709551615), "18446744073709551615");
}
