use jolt::error::{job_logs_error, JoltError};
use jolt::lists::{LoadingState, PaginatedList, SelectableList};
use jolt::loader::{
    begin_log_load, cache_immutable, combine_owners, failure_message, filter_repos_by_owner, finish_log_load,
    push_branch_history, FetchRequest,
};
use jolt::store::{CachedData, DEFAULT_TTL};
use jolt::types::{Owner, OwnerType, Repository};
use jolt::workflows::WorkflowsTabState;

fn owner(id: u64, login: &str) -> Owner {
    Owner { id, login: login.to_string(), owner_type: OwnerType::User, avatar_url: None }
}

fn repo(name: &str, login: &str) -> Repository {
    Repository {
        id: 1,
        name: name.to_string(),
        full_name: format!("{}/{}", login, name),
        owner: owner(9, login),
        private: false,
        description: None,
        updated_at: 0,
        pushed_at: None,
    }
}

#[test]
fn cached_owners_are_used_without_a_second_fetch() {
    let now = 1_700_000_000_000_i64;
    let tab = WorkflowsTabState::new();
    let plan = tab.load_plan().unwrap();
    assert_eq!(plan.request, FetchRequest::Owners);
    assert!(plan.cache_path.unwrap().ends_with("/owners.json"));

    // fresh cache: nothing cached, so a fetch is needed
    let mut owners: SelectableList<Owner> = SelectableList::new();
    assert!(owners.begin_load(None, now, DEFAULT_TTL));
    assert!(owners.data.is_loading());
    let (fetched, count) = combine_owners(owner(1, "alice"), vec![owner(2, "bob-org")]);
    assert_eq!(count, 2);
    let written = CachedData::new_at(fetched.clone(), cache_immutable(&plan.request), now);
    assert!(owners.finish_load(Ok((fetched, count))).is_none());
    assert_eq!(owners.data.data().unwrap().len(), 2);
    assert_eq!(owners.selected(), Some(0));

    // entering again while loaded does nothing
    assert!(!owners.begin_load(None, now, DEFAULT_TTL));

    // re-entering with a valid cache fills the list without a fetch
    let mut again: SelectableList<Owner> = SelectableList::new();
    assert!(!again.begin_load(Some(written), now + 60_000, DEFAULT_TTL));
    let items = &again.data.data().unwrap().items;
    assert_eq!(items.len(), 2);
    assert_eq!(items[0].login, "alice");
    assert_eq!(items[1].login, "bob-org");
}

#[test]
fn stale_cache_forces_a_fetch() {
    let mut list: SelectableList<Owner> = SelectableList::new();
    let old = CachedData::new_at(vec![owner(1, "alice")], false, 0);
    assert!(list.begin_load(Some(old), 300_001, DEFAULT_TTL));
    assert!(list.data.is_loading());
}

#[test]
fn missing_job_log_reads_as_not_available() {
    let mut content: LoadingState<String> = LoadingState::Idle;
    assert!(begin_log_load(&mut content, None));
    let line = finish_log_load(&mut content, Err(JoltError::NotFound("https://api/jobs/42/logs".to_string()))).unwrap();
    match &content {
        LoadingState::Error(m) => assert_eq!(m, "Logs not available (may have expired or job is still running)"),
        _ => panic!("expected an error"),
    }
    assert_eq!(line, "Failed to load logs: Logs not available (may have expired or job is still running)");
    match job_logs_error(JoltError::Unauthorized) {
        JoltError::Unauthorized => {}
        _ => panic!("other errors pass unchanged"),
    }
}

#[test]
fn cached_log_is_used_as_is() {
    let mut content: LoadingState<String> = LoadingState::Idle;
    assert!(!begin_log_load(&mut content, Some("log text".to_string())));
    assert_eq!(content.data().unwrap(), "log text");
    let mut fetched: LoadingState<String> = LoadingState::Loading;
    assert!(finish_log_load(&mut fetched, Ok("abc".to_string())).is_none());
    assert!(fetched.is_loaded());
}

#[test]
fn error_messages() {
    assert_eq!(JoltError::Unauthorized.message(), "Authentication failed: invalid or expired token");
    assert_eq!(JoltError::NotFound("x".to_string()).message(), "Resource not found: x");
    assert_eq!(JoltError::RateLimited { reset_at: "noon".to_string() }.message(), "Rate limit exceeded, resets at noon");
    assert_eq!(JoltError::MissingToken.message(), "Missing GITHUB_TOKEN environment variable");
    assert_eq!(JoltError::Api("down".to_string()).message(), "GitHub API error: down");
    assert_eq!(JoltError::Json("bad".to_string()).message(), "JSON parsing error: bad");
    assert_eq!(JoltError::Io("disk".to_string()).message(), "IO error: disk");
    assert_eq!(JoltError::Other("plain".to_string()).message(), "plain");
    assert_eq!(failure_message(&FetchRequest::Owners, "boom"), "Failed to load owners: boom");
}

#[test]
fn failed_fetch_sets_the_error() {
    let mut list: SelectableList<Owner> = SelectableList::new();
    list.set_loading();
    let m = list.finish_load(Err(JoltError::Other("nope".to_string()))).unwrap();
    assert_eq!(m, "nope");
    assert!(matches!(list.data, LoadingState::Error(ref e) if e == "nope"));
}

#[test]
fn repositories_are_filtered_by_owner_ignoring_case() {
    let repos = vec![repo("a", "Alice"), repo("b", "bob"), repo("c", "alice")];
    let (kept, n) = filter_repos_by_owner(repos, "ALICE");
    assert_eq!(n, 2);
    assert_eq!(kept.iter().map(|r| r.name.as_str()).collect::<Vec<_>>(), vec!["a", "c"]);
}

#[test]
fn branch_history_keeps_ten_most_recent() {
    let mut h: Vec<String> = Vec::new();
    for k in 0..12 {
        h = push_branch_history(h, format!("b{}", k));
    }
    assert_eq!(h.len(), 10);
    assert_eq!(h[0], "b11");
    let again = push_branch_history(h.clone(), "b5".to_string());
    assert_eq!(again, h);
}

#[test]
fn paginated_list_tracks_more_pages() {
    let mut p = PaginatedList::new(vec![1, 2], 5);
    assert!(p.has_more);
    p.append(vec![3, 4, 5], 5);
    assert_eq!(p.len(), 5);
    assert_eq!(p.current_page, 2);
    assert!(!p.has_more);
    assert!(!p.is_empty());
}

#[test]
fn cursor_is_clamped_and_never_wraps() {
    let mut l: SelectableList<u8> = SelectableList::new();
    l.select_next();
    assert_eq!(l.selected(), None);
    l.set_loaded(vec![1, 2, 3], 3);
    l.select_prev();
    assert_eq!(l.selected(), Some(0));
    l.select_next();
    l.select_next();
    l.select_next();
    assert_eq!(l.selected(), Some(2));
    assert_eq!(l.selected_item(), Some(&3));
}

#[test]
fn runs_on_a_branch_skip_the_cache() {
    let mut tab = WorkflowsTabState::new();
    tab.nav.push(jolt::navigation::ViewLevel::Runs {
        owner: "o".to_string(),
        repo: "r".to_string(),
        workflow_id: 3,
        workflow_name: "CI".to_string(),
    });
    let plan = tab.load_plan().unwrap();
    assert!(plan.cache_path.unwrap().ends_with("/owners/o/repos/r/workflows/3/runs.json"));
    tab.switch_branch("dev".to_string());
    assert_eq!(tab.current_branch, Some("dev".to_string()));
    let plan = tab.load_plan().unwrap();
    assert!(plan.cache_path.is_none());
    match plan.request {
        FetchRequest::Runs { branch, workflow_id, .. } => {
            assert_eq!(branch, Some("dev".to_string()));
            assert_eq!(workflow_id, 3);
        }
        _ => panic!("expected a runs fetch"),
    }
    tab.runs.set_loaded(Vec::new(), 0);
    assert!(tab.load_plan().is_none());
}

#[test]
fn branch_chooser_prefers_typed_text() {
    let mut tab = WorkflowsTabState::new();
    assert_eq!(tab.chosen_branch(), None);
    tab.branch_history = vec!["main".to_string(), "dev".to_string()];
    tab.branch_history_selection = 1;
    assert_eq!(tab.chosen_branch(), Some("dev".to_string()));
    tab.branch_input = "feature".to_string();
    assert_eq!(tab.chosen_branch(), Some("feature".to_string()));
}
