use jolt::grouping::{group_by_name_at, JobGroup, JobListItem};
use jolt::types::{Job, RunStatus};

fn job(id: u64, name: &str, started: Option<i64>, completed: Option<i64>) -> Job {
    Job {
        id,
        run_id: 1,
        name: name.to_string(),
        status: RunStatus::Completed,
        conclusion: None,
        started_at: started,
        completed_at: completed,
        html_url: String::new(),
        steps: Vec::new(),
        runner_name: None,
    }
}

#[test]
fn groups_by_name_in_name_order() {
    let jobs = vec![
        job(1, "test", Some(10), None),
        job(2, "build", Some(5), None),
        job(3, "test", Some(30), None),
        job(4, "lint", None, Some(7)),
        job(5, "build", Some(50), None),
    ];
    let groups = group_by_name_at(jobs, 100);
    assert_eq!(groups.len(), 3);
    let names: Vec<&str> = groups.iter().map(|g| g.latest.name.as_str()).collect();
    assert_eq!(names, vec!["build", "lint", "test"]);
    assert_eq!(groups[0].latest.id, 5);
    assert_eq!(groups[0].previous.len(), 1);
    assert_eq!(groups[0].previous[0].id, 2);
    assert_eq!(groups[2].latest.id, 3);
    assert_eq!(groups[2].total_attempts(), 2);
}

#[test]
fn flattened_entries_cover_every_job() {
    let jobs = vec![
        job(1, "a", Some(1), None),
        job(2, "b", Some(2), None),
        job(3, "a", Some(3), None),
        job(4, "a", None, None),
    ];
    let groups = group_by_name_at(jobs, 2);
    let items = JobListItem::flatten(&groups);
    assert_eq!(groups.len(), 2);
    assert_eq!(items.len(), 4);
    assert!(matches!(items[0], JobListItem::Main { group_index: 0 }));
    assert!(matches!(items[1], JobListItem::SubItem { group_index: 0, attempt_index: 0 }));
    for item in items.iter() {
        let g = match item {
            JobListItem::Main { group_index } => *group_index,
            JobListItem::SubItem { group_index, .. } => *group_index,
        };
        assert_eq!(item.get_job(&groups).name, groups[g].latest.name);
    }
    // most recent first; the job without times counts as "now" (2), after 3
    let ids: Vec<u64> = std::iter::once(groups[0].latest.id).chain(groups[0].previous.iter().map(|j| j.id)).collect();
    assert_eq!(ids, vec![3, 4, 1]);
}

#[test]
fn grouping_nothing_gives_nothing() {
    assert!(group_by_name_at(Vec::new(), 0).is_empty());
    assert!(JobListItem::flatten(&[]).is_empty());
}

#[test]
fn from_jobs_orders_most_recent_first() {
    let g = JobGroup::from_jobs_at(vec![job(1, "x", Some(1), None), job(2, "x", Some(9), None), job(3, "x", None, Some(5))], 0);
    assert_eq!(g.latest.id, 2);
    assert_eq!(g.previous.iter().map(|j| j.id).collect::<Vec<_>>(), vec![3, 1]);
    let live = JobGroup::from_jobs(vec![job(1, "x", Some(1), None), job(2, "x", None, None)]);
    assert_eq!(live.latest.id, 2);
    let all = JobGroup::group_by_name(vec![job(1, "x", None, None)]);
    assert_eq!(all.len(), 1);
}

#[test]
fn setting_jobs_keeps_the_list_and_groups_it() {
    let mut tab = jolt::workflows::WorkflowsTabState::new();
    tab.set_jobs_at(vec![job(1, "b", Some(1), None), job(2, "a", Some(2), None)], 7, 0);
    let p = tab.jobs.data.data().unwrap();
    assert_eq!(p.items.iter().map(|j| j.id).collect::<Vec<_>>(), vec![1, 2]);
    assert_eq!(p.total_count, 7);
    assert_eq!(tab.jobs.selected(), Some(0));
    assert_eq!(tab.job_groups[0].latest.name, "a");
    assert_eq!(tab.job_list_items.len(), 2);
}
