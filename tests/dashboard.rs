use jolt::dashboard::{file_name, App, Tab};
use jolt::lists::LoadingState;
use jolt::navigation::ViewLevel;
use jolt::types::{Owner, OwnerType};

fn owner(id: u64, login: &str) -> Owner {
    Owner { id, login: login.to_string(), owner_type: OwnerType::User, avatar_url: None }
}

fn app_with_owners() -> App {
    let mut app = App::new();
    app.workflows.owners.set_loaded(vec![owner(1, "zed"), owner(2, "amy"), owner(3, "bob")], 3);
    app
}

#[test]
fn enter_uses_the_favorite_order() {
    let mut app = app_with_owners();
    app.favorite_owners.toggle("zed");
    // displayed order: zed (favorite), amy, bob; cursor on the first row
    assert_eq!(app.workflows_next_level(), Some(ViewLevel::Repositories { owner: "zed".to_string() }));
    app.workflows.owners.select_next();
    assert_eq!(app.get_workflows_github_url(), Some("https://github.com/amy".to_string()));
    assert!(app.handle_workflows_enter());
    assert_eq!(app.workflows.nav.current(), &ViewLevel::Repositories { owner: "amy".to_string() });
}

#[test]
fn toggle_resolves_the_displayed_row() {
    let mut app = app_with_owners();
    // cursor on the first row: amy (no favorites yet)
    app.toggle_favorite();
    assert!(app.favorite_owners.contains("amy"));
    app.toggle_favorite();
    assert!(!app.favorite_owners.contains("amy"));
}

#[test]
fn search_wraps_from_last_match_to_first() {
    let mut app = App::new();
    app.workflows.nav.push(ViewLevel::Logs {
        owner: "o".to_string(),
        repo: "r".to_string(),
        workflow_id: 1,
        run_id: 2,
        job_id: 3,
        job_name: "j".to_string(),
        job_status: jolt::types::RunStatus::Completed,
        job_conclusion: None,
    });
    app.workflows.log_content = LoadingState::Loaded("WARN a\nok\nwarn b\nwarn c".to_string());
    app.handle_search_start();
    assert!(app.search_active);
    app.search_query = "Warn".to_string();
    app.execute_search();
    assert_eq!(app.search_matches, vec![0, 2, 3]);
    assert_eq!(app.search_match_index, 0);
    app.search_next();
    app.search_next();
    assert_eq!(app.workflows.log_scroll_y, 3);
    app.search_next();
    assert_eq!(app.search_match_index, 0);
    assert_eq!(app.workflows.log_scroll_y, 0);
    app.search_prev();
    assert_eq!(app.search_match_index, 2);
    assert_eq!(app.get_workflows_github_url(), Some("https://github.com/o/r/actions/runs/2/job/3".to_string()));
}

#[test]
fn tabs_cycle() {
    assert_eq!(Tab::Sync.next(), Tab::Runners);
    assert_eq!(Tab::Runners.prev(), Tab::Sync);
    assert_eq!(Tab::Analyze.title(), "Analyze");
    assert_eq!(Tab::default(), Tab::Workflows);
}

#[test]
fn workflow_links_use_the_file_name() {
    assert_eq!(file_name(".github/workflows/ci.yml"), "ci.yml");
    assert_eq!(file_name("ci.yml"), "ci.yml");
}

#[test]
fn escape_goes_back_and_clears_the_child_list() {
    let mut app = app_with_owners();
    assert!(app.handle_workflows_enter());
    app.workflows.repositories.set_loaded(Vec::new(), 0);
    assert!(app.handle_escape());
    assert_eq!(app.workflows.nav.depth(), 1);
    assert!(matches!(app.workflows.repositories.data, LoadingState::Idle));
    assert!(!app.handle_escape());
}

fn logs_level() -> ViewLevel {
    ViewLevel::Logs {
        owner: "o".to_string(),
        repo: "r".to_string(),
        workflow_id: 1,
        run_id: 2,
        job_id: 3,
        job_name: "build".to_string(),
        job_status: jolt::types::RunStatus::Completed,
        job_conclusion: None,
    }
}

#[test]
fn saving_a_selection_and_going_back_to_it() {
    let mut app = App::new();
    app.workflows.nav.push(logs_level());
    app.workflows.log_content = LoadingState::Loaded((0..30).map(|i| format!("l{}", i)).collect::<Vec<_>>().join("\n"));
    app.workflows.log_selection_anchor = 12;
    app.workflows.log_selection_cursor = 10;
    assert_eq!(app.selection_text(), Some("l10\nl11\nl12".to_string()));
    let t = jolt::clock::Timestamp { millis: 1_000_000, subsec_nanos: 0 };
    assert!(app.save_to_analyze_at(t));
    assert_eq!(app.active_tab, Tab::Analyze);
    assert_eq!(app.analyze.sessions.len(), 1);
    let s = &app.analyze.sessions[0];
    assert_eq!(s.excerpt_start_line, 10);
    assert_eq!(s.excerpt_end_line, 12);
    assert_eq!(s.github_url, "https://github.com/o/r/actions/runs/2/job/3");
    assert_eq!(s.run_metadata.commit_sha, "unknown");
    let id = s.id.clone();
    app.workflows = jolt::workflows::WorkflowsTabState::new();
    assert!(app.go_to_source(&id));
    assert_eq!(app.active_tab, Tab::Workflows);
    assert_eq!(app.workflows.nav.depth(), 6);
    assert_eq!(app.workflows.log_selection_anchor, 12);
    assert_eq!(app.workflows.log_selection_cursor, 10);
    assert!(!app.go_to_source("missing"));
}

#[test]
fn log_position_is_saved_and_restored() {
    let mut app = App::new();
    app.workflows.nav.push(logs_level());
    app.workflows.log_selection_anchor = 4;
    app.workflows.log_selection_cursor = 5;
    app.workflows.log_scroll_y = 2;
    assert!(app.handle_escape());
    app.workflows.log_selection_anchor = 0;
    app.restore_log_state(3);
    assert_eq!(app.workflows.log_selection_anchor, 4);
    assert_eq!(app.workflows.log_scroll_y, 2);
}

#[test]
fn runners_list_refreshes_after_a_minute() {
    let mut app = App::new();
    app.active_tab = Tab::Runners;
    let mut repo = jolt::types::Repository {
        id: 1,
        name: "r".to_string(),
        full_name: "o/r".to_string(),
        owner: owner(1, "o"),
        private: false,
        description: None,
        updated_at: 0,
        pushed_at: None,
    };
    repo.owner.login = "o".to_string();
    app.runners.repositories.set_loaded(vec![repo], 1);
    assert!(app.handle_runners_enter_at(1_000));
    assert_eq!(app.runners.runners_next_refresh, Some(61_000));
    assert!(!app.runners.refresh_due_at(60_999));
    assert!(app.runners.refresh_due_at(61_000));
    assert_eq!(app.runners.runners_next_refresh, Some(121_000));
    assert!(app.runners.runners.data.is_loading());
    assert_eq!(app.get_runners_github_url(), Some("https://github.com/o/r/settings/actions/runners".to_string()));
    assert!(app.handle_escape());
    assert_eq!(app.runners.runners_next_refresh, None);
}

#[test]
fn metadata_comes_from_the_loaded_run_and_job() {
    let run = jolt::types::WorkflowRun {
        id: 2,
        name: None,
        run_number: 9,
        run_attempt: None,
        status: jolt::types::RunStatus::Completed,
        conclusion: None,
        workflow_id: 1,
        head_branch: Some("main".to_string()),
        head_sha: "0123456789abcdef".to_string(),
        created_at: 0,
        updated_at: 0,
        html_url: String::new(),
        pull_requests: Vec::new(),
    };
    let runs = LoadingState::Loaded(jolt::lists::PaginatedList::new(vec![run], 1));
    let jobs: LoadingState<jolt::lists::PaginatedList<jolt::types::Job>> = LoadingState::Idle;
    let m = jolt::dashboard::run_metadata(&runs, &jobs, 2, 3);
    assert_eq!(m.commit_sha, "0123456");
    assert_eq!(m.branch_name, Some("main".to_string()));
    assert_eq!(m.runner_name, None);
}

#[test]
fn plain_up_at_the_first_line_collapses_the_selection() {
    let mut app = App::new();
    app.workflows.nav.push(logs_level());
    app.workflows.log_content = LoadingState::Loaded("a\nb\nc".to_string());
    app.workflows.log_selection_anchor = 2;
    app.workflows.log_selection_cursor = 0;
    app.handle_up(false);
    assert_eq!((app.workflows.log_selection_anchor, app.workflows.log_selection_cursor), (0, 0));
    app.workflows.log_selection_anchor = 0;
    app.workflows.log_selection_cursor = 2;
    app.handle_down(false);
    assert_eq!((app.workflows.log_selection_anchor, app.workflows.log_selection_cursor), (2, 2));
    app.handle_end(true);
    app.handle_home(true);
    assert_eq!((app.workflows.log_selection_anchor, app.workflows.log_selection_cursor), (2, 0));
}

#[test]
fn toggling_a_repository_uses_the_shown_row() {
    let mut app = App::new();
    app.workflows.nav.push(ViewLevel::Repositories { owner: "o".to_string() });
    let repo = |name: &str| jolt::types::Repository {
        id: 1,
        name: name.to_string(),
        full_name: String::new(),
        owner: owner(1, "o"),
        private: false,
        description: None,
        updated_at: 0,
        pushed_at: None,
    };
    app.workflows.repositories.set_loaded(vec![repo("b"), repo("a")], 2);
    app.favorite_repos.toggle("o/b");
    // shown order: b (favorite), a; cursor on the second row
    app.workflows.repositories.select_next();
    assert_eq!(app.get_workflows_github_url(), Some("https://github.com/o/a".to_string()));
    app.toggle_favorite();
    assert!(app.favorite_repos.contains("o/a"));
    // both are favorites now: the row under the cursor is b
    assert_eq!(app.get_workflows_github_url(), Some("https://github.com/o/b".to_string()));
}
