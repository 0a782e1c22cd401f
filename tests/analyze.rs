use jolt::analyze::{AnalyzeTabState, AnalyzeViewLevel, NavigationContext, RunMetadata, SourceTab, AnalysisSession};
use jolt::clock::Timestamp;
use jolt::types::RunStatus;

fn ctx(job_id: u64, run_id: u64) -> NavigationContext {
    NavigationContext {
        source_tab: SourceTab::Workflows,
        owner: "o".to_string(),
        repo: "r".to_string(),
        workflow_id: Some(1),
        workflow_name: Some("CI".to_string()),
        run_id,
        run_number: 7,
        job_id,
        job_name: "build".to_string(),
        job_status: RunStatus::Completed,
        job_conclusion: None,
        scroll_to_line: 0,
        selection_anchor: 0,
        selection_cursor: 0,
    }
}

fn meta() -> RunMetadata {
    RunMetadata {
        pr_number: None,
        branch_name: None,
        commit_sha: "abc1234".to_string(),
        author: None,
        runner_name: None,
        runner_labels: Vec::new(),
    }
}

fn hundred_lines() -> String {
    (0..100).map(|i| format!("line {}", i)).collect::<Vec<_>>().join("\n")
}

#[test]
fn overlapping_save_navigates_to_the_existing_session() {
    let log = hundred_lines();
    let mut a = AnalyzeTabState::new();
    let t1 = Timestamp { millis: 1_700_000_000_123, subsec_nanos: 0x1234_abcd };
    assert!(a.save_excerpt_at(ctx(42, 9), meta(), "u".to_string(), &log, 10, 15, t1));
    assert_eq!(a.sessions.len(), 1);
    let first_id = a.sessions[0].id.clone();
    assert_eq!(first_id, "1700000000-abcd");
    assert_eq!(a.sessions[0].title, "build - 6 lines from r");
    assert_eq!(a.sessions[0].log_excerpt, "line 10\nline 11\nline 12\nline 13\nline 14\nline 15");
    assert_eq!(a.sessions[0].total_log_lines, 100);
    assert_eq!(a.view, AnalyzeViewLevel::Detail { session_id: first_id.clone() });

    a.exit_detail();
    let t2 = Timestamp { millis: 1_700_000_100_000, subsec_nanos: 7 };
    assert!(a.save_excerpt_at(ctx(7, 9), meta(), "u".to_string(), &log, 0, 1, t2));
    assert_eq!(a.selected(), Some(0));
    assert!(!a.save_excerpt_at(ctx(42, 9), meta(), "u".to_string(), &log, 12, 13, t2));
    assert_eq!(a.sessions.len(), 2);
    assert_eq!(a.selected(), Some(1));
    assert_eq!(a.view, AnalyzeViewLevel::Detail { session_id: first_id });
}

#[test]
fn other_job_or_disjoint_lines_make_a_new_session() {
    let log = hundred_lines();
    let mut a = AnalyzeTabState::new();
    let t = Timestamp { millis: 5_000, subsec_nanos: 1 };
    assert!(a.save_excerpt_at(ctx(1, 1), meta(), "u".to_string(), &log, 10, 15, t));
    assert!(a.save_excerpt_at(ctx(1, 1), meta(), "u".to_string(), &log, 16, 20, t));
    assert!(a.save_excerpt_at(ctx(2, 1), meta(), "u".to_string(), &log, 10, 15, t));
    assert_eq!(a.sessions.len(), 3);
    assert_eq!(a.sessions[0].nav_context.job_id, 2);
    assert!(a.find_overlapping(1, 1, 15, 16).is_some());
    assert!(a.find_overlapping(1, 1, 21, 30).is_none());
    assert!(AnalyzeTabState::ranges_overlap(1, 5, 5, 9));
    assert!(!AnalyzeTabState::ranges_overlap(1, 4, 5, 9));
    assert_eq!(a.get_session_lines(1, 1).len(), 2);
}

#[test]
fn sessions_can_be_found_and_deleted() {
    let mut a = AnalyzeTabState::new();
    let s = AnalysisSession::new_at(ctx(1, 1), meta(), "u".to_string(), "x".to_string(), 1, 0, 0, Timestamp { millis: -1, subsec_nanos: 65536 + 255 });
    assert_eq!(s.id, "-1-00ff");
    a.add_session(s);
    assert!(a.find_session("-1-00ff").is_some());
    a.delete_session("-1-00ff");
    assert!(a.sessions.is_empty());
    assert_eq!(a.selected(), None);
}

#[test]
fn session_ids_come_from_the_clock() {
    let s = AnalysisSession::new(ctx(1, 1), meta(), "u".to_string(), "x".to_string(), 1, 3, 4);
    assert_eq!(s.title, "build - 2 lines from r");
    assert!(s.id.contains('-'));
    assert!(jolt::analyze::rand_u16() <= u16::MAX);
}
