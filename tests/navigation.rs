use jolt::navigation::{NavigationStack, ViewLevel};
use jolt::runners::{RunnersNavStack, RunnersViewLevel};
use jolt::types::RunStatus;

#[test]
fn test_navigation_stack() {
    let mut nav = NavigationStack::default();

    assert_eq!(nav.depth(), 1);
    assert!(!nav.can_go_back());

    nav.push(ViewLevel::Repositories { owner: "phatblat".to_string() });
    assert_eq!(nav.depth(), 2);
    assert!(nav.can_go_back());

    nav.push(ViewLevel::Workflows { owner: "phatblat".to_string(), repo: "jolt".to_string() });
    assert_eq!(nav.depth(), 3);

    assert!(nav.pop());
    assert_eq!(nav.depth(), 2);

    assert!(nav.pop());
    assert_eq!(nav.depth(), 1);

    assert!(!nav.pop());
    assert_eq!(nav.depth(), 1);
}

#[test]
fn test_breadcrumbs() {
    let mut nav = NavigationStack::default();
    nav.push(ViewLevel::Repositories { owner: "phatblat".to_string() });
    nav.push(ViewLevel::Workflows { owner: "phatblat".to_string(), repo: "jolt".to_string() });

    let breadcrumbs = nav.breadcrumbs();
    assert_eq!(breadcrumbs.len(), 3);
    assert_eq!(breadcrumbs[0].label, "Owners");
    assert_eq!(breadcrumbs[1].label, "phatblat");
    assert_eq!(breadcrumbs[2].label, "jolt");
}

#[test]
fn pop_undoes_each_push() {
    let mut nav = NavigationStack::default();
    let levels = vec![
        ViewLevel::Repositories { owner: "o".to_string() },
        ViewLevel::Workflows { owner: "o".to_string(), repo: "r".to_string() },
        ViewLevel::Runs { owner: "o".to_string(), repo: "r".to_string(), workflow_id: 1, workflow_name: "CI".to_string() },
    ];
    for l in levels.iter() {
        nav.push(l.clone());
        assert_eq!(nav.breadcrumbs().len(), nav.depth());
    }
    for l in levels.iter().rev() {
        assert_eq!(nav.current(), l);
        assert!(nav.pop());
        assert_eq!(nav.breadcrumbs().len(), nav.depth());
    }
    assert_eq!(nav.current(), &ViewLevel::Owners);
    assert!(!nav.pop());
    assert_eq!(nav.depth(), 1);
}

#[test]
fn reset_returns_to_root() {
    let mut nav = NavigationStack::default();
    nav.push(ViewLevel::Repositories { owner: "o".to_string() });
    nav.push(ViewLevel::Workflows { owner: "o".to_string(), repo: "r".to_string() });
    nav.reset();
    assert_eq!(nav.depth(), 1);
    assert_eq!(nav.current(), &ViewLevel::Owners);
}

#[test]
fn view_titles_and_labels() {
    assert_eq!(ViewLevel::Owners.title(), "Owners");
    assert_eq!(ViewLevel::Repositories { owner: "o".to_string() }.title(), "o / Repositories");
    assert_eq!(ViewLevel::Workflows { owner: "o".to_string(), repo: "r".to_string() }.title(), "o/r / Workflows");
    let jobs = ViewLevel::Jobs { owner: "o".to_string(), repo: "r".to_string(), workflow_id: 1, run_id: 2, run_number: 42 };
    assert_eq!(jobs.title(), "Run #42 / Jobs");
    assert_eq!(jobs.to_breadcrumb().label, "#42");
    let logs = ViewLevel::Logs {
        owner: "o".to_string(),
        repo: "r".to_string(),
        workflow_id: 1,
        run_id: 2,
        job_id: 3,
        job_name: "build".to_string(),
        job_status: RunStatus::Completed,
        job_conclusion: None,
    };
    assert_eq!(logs.title(), "build / Logs");
}

#[test]
fn runners_stack_and_labels() {
    let mut nav = RunnersNavStack::default();
    nav.push(RunnersViewLevel::Runners { owner: "o".to_string(), repo: "r".to_string() });
    nav.push(RunnersViewLevel::Runs { owner: "o".to_string(), repo: "r".to_string(), runner_name: None });
    let crumbs = nav.breadcrumbs();
    assert_eq!(crumbs.len(), 3);
    assert_eq!(crumbs[0].label, "Repos");
    assert_eq!(crumbs[1].label, "r");
    assert_eq!(crumbs[2].label, "Runs");
    assert_eq!(nav.current().title(), "All Runs");
    assert!(nav.pop());
    assert_eq!(nav.current().title(), "o/r / Runners");
    assert!(nav.pop());
    assert!(!nav.pop());
    let named = RunnersViewLevel::Runs { owner: "o".to_string(), repo: "r".to_string(), runner_name: Some("mac-1".to_string()) };
    assert_eq!(named.title(), "mac-1 / Runs");
}

#[test]
fn from_levels_refuses_empty_stack() {
    assert!(NavigationStack::from_levels(Vec::new()).is_none());
    let s = NavigationStack::from_levels(vec![ViewLevel::Owners, ViewLevel::Repositories { owner: "o".to_string() }]).unwrap();
    assert_eq!(s.depth(), 2);
}
