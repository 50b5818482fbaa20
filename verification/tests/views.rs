use sdkwork_github::domain::{
    Page, Plan, PlanItem, TrackerIssue, TrackerLabel, TrackerMilestone, TrackerRoadmap,
    TrackerRoadmapItem, UtcTimestamp,
};
use sdkwork_github::views::{
    assemble_issue_detail, assemble_issue_page, assemble_plan_page, assemble_roadmap_view,
    collect_labels_for, find_milestone, plan_ids, roadmap_issue_ids, sort_plan_items,
    tracker_issue_ids, tracker_milestone_ids,
};

const NOW: UtcTimestamp = UtcTimestamp { secs: 1_700_000_000, nanos: 0 };

fn plan(id: &str, title: &str) -> Plan {
    Plan {
        id: id.to_owned(),
        tenant_id: "100001".to_owned(),
        organization_id: "0".to_owned(),
        repository_id: Some("github-repo-test-1".to_owned()),
        title: title.to_owned(),
        status: "active".to_owned(),
        created_at: NOW,
        updated_at: NOW,
    }
}

fn item(id: &str, plan_id: &str, order: i32, issue: Option<&str>) -> PlanItem {
    PlanItem {
        id: id.to_owned(),
        plan_id: plan_id.to_owned(),
        title: format!("title of {id}"),
        status: "pending".to_owned(),
        sort_order: order,
        issue_id: issue.map(|s| s.to_owned()),
        created_at: NOW,
        updated_at: NOW,
    }
}

#[test]
fn list_plans_returns_nested_checklist_items() {
    let page = Page { items: vec![plan("github-plan-test-1", "Launch checklist")], page: 1, page_size: 20, total: 1 };
    let ids = plan_ids(&page.items);
    assert_eq!(ids, vec!["github-plan-test-1".to_owned()]);
    let items = vec![item("github-plan-item-test-1", "github-plan-test-1", 1, Some("github-issue-test-1"))];
    let views = assemble_plan_page(page, items);
    assert_eq!(views.items.len(), 1);
    assert_eq!(views.items[0].title, "Launch checklist");
    assert_eq!(views.items[0].items.len(), 1);
    assert_eq!(views.items[0].items[0].issue_id.as_deref(), Some("github-issue-test-1"));
    assert_eq!((views.page, views.page_size, views.total), (1, 20, 1));
}

#[test]
fn sort_is_stable_by_order() {
    let items = vec![
        item("a", "p", 2, None),
        item("b", "p", 0, None),
        item("c", "p", 2, None),
        item("d", "p", -1, None),
        item("e", "p", 0, None),
    ];
    let sorted = sort_plan_items(items);
    let ids: Vec<&str> = sorted.iter().map(|i| i.id.as_str()).collect();
    assert_eq!(ids, vec!["d", "b", "e", "a", "c"]);
}

#[test]
fn plan_page_groups_orders_and_leaves_repeated_plans_empty() {
    let page = Page {
        items: vec![plan("p1", "One"), plan("p2", "Two"), plan("p1", "One again")],
        page: 2,
        page_size: 3,
        total: 9,
    };
    let items = vec![
        item("x", "p2", 5, None),
        item("y", "p1", 3, None),
        item("z", "p1", 1, Some("i")),
        item("w", "other", 0, None),
        item("v", "p2", 5, None),
    ];
    let views = assemble_plan_page(page, items);
    let ids = |k: usize| views.items[k].items.iter().map(|i| i.id.clone()).collect::<Vec<_>>();
    assert_eq!(ids(0), vec!["z", "y"]);
    assert_eq!(ids(1), vec!["x", "v"]);
    assert!(ids(2).is_empty());
    assert_eq!(views.items[2].title, "One again");
    assert_eq!((views.page, views.page_size, views.total), (2, 3, 9));
}

fn issue(id: &str, milestone: Option<&str>) -> TrackerIssue {
    TrackerIssue {
        id: id.to_owned(),
        title: format!("issue {id}"),
        description: "d".to_owned(),
        issue_type: "bug".to_owned(),
        status: "open".to_owned(),
        priority: "medium".to_owned(),
        submitted_by: "user-test".to_owned(),
        assignee_id: None,
        milestone_id: milestone.map(|m| m.to_owned()),
        github_issue_id: None,
        vote_count: 0,
        comment_count: 0,
        created_at: NOW,
        updated_at: NOW,
    }
}

fn label(id: &str) -> TrackerLabel {
    TrackerLabel { id: id.to_owned(), name: format!("name {id}"), color: "6e7681".to_owned(), description: None }
}

fn milestone(id: &str, title: &str) -> TrackerMilestone {
    TrackerMilestone { id: id.to_owned(), title: title.to_owned(), description: None, status: "open".to_owned(), due_date: Some("2026-09-01".to_owned()) }
}

#[test]
fn issue_page_attaches_labels_and_milestones() {
    let page = Page { items: vec![issue("i1", Some("m1")), issue("i2", None), issue("i1", Some("m2"))], page: 1, page_size: 20, total: 3 };
    assert_eq!(tracker_issue_ids(&page.items), vec!["i1", "i2", "i1"]);
    assert_eq!(tracker_milestone_ids(&page.items), vec!["m1", "m2"]);
    let pairs = vec![
        ("i2".to_owned(), label("l1")),
        ("i1".to_owned(), label("l2")),
        ("i1".to_owned(), label("l3")),
    ];
    let found = vec![("m1".to_owned(), milestone("m1", "first")), ("m1".to_owned(), milestone("m1", "second"))];
    let views = assemble_issue_page(page, pairs, found);
    let label_ids = |k: usize| views.items[k].labels.iter().map(|l| l.id.clone()).collect::<Vec<_>>();
    assert_eq!(label_ids(0), vec!["l2", "l3"]);
    assert_eq!(label_ids(1), vec!["l1"]);
    assert!(label_ids(2).is_empty());
    assert_eq!(views.items[0].milestone.as_ref().map(|m| m.title.as_str()), Some("second"));
    assert!(views.items[1].milestone.is_none());
    assert!(views.items[2].milestone.is_none());
}

#[test]
fn lookups() {
    let pairs = vec![("a".to_owned(), label("x")), ("b".to_owned(), label("y")), ("a".to_owned(), label("z"))];
    let ids: Vec<String> = collect_labels_for(&pairs, &"a".to_owned()).into_iter().map(|l| l.id).collect();
    assert_eq!(ids, vec!["x", "z"]);
    let found = vec![("m".to_owned(), milestone("m", "old")), ("n".to_owned(), milestone("n", "n")), ("m".to_owned(), milestone("m", "new"))];
    assert_eq!(find_milestone(&found, &"m".to_owned()).unwrap().title, "new");
    assert!(find_milestone(&found, &"q".to_owned()).is_none());
}

#[test]
fn issue_detail_takes_all_labels() {
    let view = assemble_issue_detail(issue("i9", Some("m")), vec![("i9".to_owned(), label("a")), ("i9".to_owned(), label("b"))], Some(milestone("m", "M")));
    assert_eq!(view.issue.id, "i9");
    assert_eq!(view.labels.len(), 2);
    assert_eq!(view.milestone.unwrap().title, "M");
}

fn roadmap_item(id: &str, issue_id: &str, order: i32) -> TrackerRoadmapItem {
    TrackerRoadmapItem { id: id.to_owned(), roadmap_id: "r".to_owned(), issue_id: issue_id.to_owned(), track: Some("core".to_owned()), start_date: None, target_date: None, sort_order: order }
}

#[test]
fn roadmap_view_pairs_items_with_issues() {
    let roadmap = TrackerRoadmap { id: "r".to_owned(), title: "2026".to_owned(), description: None, status: "active".to_owned(), start_date: None, target_date: None };
    let items = vec![roadmap_item("a", "i1", 0), roadmap_item("b", "i2", 1), roadmap_item("c", "i1", 2)];
    assert_eq!(roadmap_issue_ids(&items), vec!["i1", "i2", "i1"]);
    let issues = vec![issue("i1", None), issue("i2", None), issue("i1", None)];
    let pairs = vec![("i1".to_owned(), label("l1")), ("i2".to_owned(), label("l2"))];
    let view = assemble_roadmap_view(roadmap, items, issues, pairs);
    assert_eq!(view.roadmap.title, "2026");
    assert_eq!(view.items.len(), 3);
    assert_eq!(view.items[0].labels.len(), 1);
    assert_eq!(view.items[1].labels[0].id, "l2");
    assert!(view.items[2].labels.is_empty());
    assert_eq!(view.items[2].item.id, "c");
    assert_eq!(view.items[1].issue.id, "i2");
}
