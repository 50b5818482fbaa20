use sdkwork_github::domain::{CatalogBootstrapResult, Repository, UtcTimestamp};
use sdkwork_github::error::ServiceError;
use sdkwork_github::records::{
    catalog_checklist, catalog_issue_sync, catalog_linked_issue, catalog_pause_before,
    catalog_plan, catalog_sync_enabled, catalog_syncs_issues, configured_or, issue_from_remote,
    issues_from_remote, repositories_from_remote, repository_from_remote,
    select_sync_repositories, CatalogEntry, CatalogIssueSync, RemoteIssue, RemoteRepository,
    SyncProgress, CATALOG_CHECKLIST_LEN, DEFAULT_CATALOG_ORGANIZATION_ID,
    DEFAULT_CATALOG_TENANT_ID, SYNC_REPOSITORY_PAGE, SYNC_REPOSITORY_PAGE_SIZE,
};

const NOW: UtcTimestamp = UtcTimestamp { secs: 1_725_029_869, nanos: 5 };

fn remote_repo(id: u64, full_name: &str) -> RemoteRepository {
    RemoteRepository {
        id,
        full_name: full_name.to_owned(),
        owner_login: full_name.split('/').next().unwrap().to_owned(),
        description: Some("desc".to_owned()),
        default_branch: Some("main".to_owned()),
        html_url: Some(format!("https://github.com/{full_name}")),
        private: id % 2 == 0,
    }
}

fn remote_issue(id: u64, number: i64) -> RemoteIssue {
    RemoteIssue { id, number, title: format!("issue {number}"), state: "open".to_owned(), html_url: None }
}

#[test]
fn repository_record_from_remote() {
    let r = repository_from_remote(remote_repo(1296269, "octocat/Hello-World"), "100001", "0", NOW);
    assert_eq!(r.id, "github-repo-1296269");
    assert_eq!(r.tenant_id, "100001");
    assert_eq!(r.organization_id, "0");
    assert_eq!(r.full_name, "octocat/Hello-World");
    assert_eq!(r.owner, "octocat");
    assert_eq!(r.default_branch.as_deref(), Some("main"));
    assert!(!r.is_private);
    assert_eq!(r.created_at, NOW);
    assert_eq!(r.updated_at, NOW);
}

#[test]
fn issue_records_and_limit() {
    let i = issue_from_remote(remote_issue(42, 7), "t", "o", "github-repo-1", NOW);
    assert_eq!(i.id, "github-issue-42");
    assert_eq!(i.repository_id, "github-repo-1");
    assert_eq!(i.number, 7);
    let all = issues_from_remote(vec![remote_issue(1, 1), remote_issue(2, 2), remote_issue(3, 3)], 2, "t", "o", "r", NOW);
    assert_eq!(all.iter().map(|i| i.id.as_str()).collect::<Vec<_>>(), vec!["github-issue-1", "github-issue-2"]);
    let fewer = issues_from_remote(vec![remote_issue(9, 9)], 5, "t", "o", "r", NOW);
    assert_eq!(fewer.len(), 1);
    let repos = repositories_from_remote(vec![remote_repo(1, "a/b"), remote_repo(2, "c/d")], "t", "o", NOW);
    assert_eq!(repos.len(), 2);
    assert!(repos[1].is_private);
    assert_eq!(repos[1].id, "github-repo-2");
}

fn repo(id: &str) -> Repository {
    repository_from_remote(remote_repo(1, "a/b"), "t", "o", NOW).with_id(id)
}

trait WithId {
    fn with_id(self, id: &str) -> Self;
}

impl WithId for Repository {
    fn with_id(mut self, id: &str) -> Self {
        self.id = id.to_owned();
        self
    }
}

#[test]
fn sync_selection() {
    assert_eq!((SYNC_REPOSITORY_PAGE, SYNC_REPOSITORY_PAGE_SIZE), (1, 100));
    let all = select_sync_repositories(vec![repo("r1"), repo("r2")], None).unwrap();
    assert_eq!(all.len(), 2);
    let one = select_sync_repositories(vec![repo("r1"), repo("r2"), repo("r1")], Some("r1")).unwrap();
    assert_eq!(one.len(), 2);
    assert!(one.iter().all(|r| r.id == "r1"));
    match select_sync_repositories(vec![repo("r1")], Some("r9")) {
        Err(ServiceError::Validation(m)) => assert_eq!(m, "sync issues requires at least one tracked repository"),
        other => panic!("unexpected {:?}", other.map(|v| v.len())),
    }
    assert!(matches!(select_sync_repositories(vec![], None), Err(ServiceError::Validation(_))));
}

#[test]
fn sync_progress_counts() {
    let mut p = SyncProgress::new();
    p.record_written(3);
    p.record_written(0);
    p.record_written(2);
    let r = p.finish("github".to_owned());
    assert_eq!(r.provider, "github");
    assert_eq!(r.synced_count, 5);
}

fn entry(sync_issues: bool, max_issues: u32) -> CatalogEntry {
    CatalogEntry { owner: "rust-lang".to_owned(), name: "rust".to_owned(), sync_issues, max_issues, plan_title: "Follow Rust".to_owned() }
}

#[test]
fn catalog_plan_and_checklist() {
    let repository_id = "github-repo-724712".to_owned();
    let plan = catalog_plan(&entry(true, 3), &repository_id, "100001", "0", NOW);
    assert_eq!(plan.id, "github-plan-catalog-rust-lang-rust");
    assert_eq!(plan.repository_id.as_deref(), Some("github-repo-724712"));
    assert_eq!(plan.status, "active");
    assert_eq!(plan.title, "Follow Rust");
    let issues = issues_from_remote(vec![remote_issue(11, 1), remote_issue(12, 2)], 3, "100001", "0", &repository_id, NOW);
    let linked = catalog_linked_issue(&issues);
    assert_eq!(linked.as_deref(), Some("github-issue-11"));
    assert_eq!(catalog_linked_issue(&vec![]), None);
    let items = catalog_checklist(&plan.id, &linked, NOW);
    assert_eq!(items.len(), CATALOG_CHECKLIST_LEN);
    assert_eq!(items[0].id, "github-plan-catalog-rust-lang-rust-item-0");
    assert_eq!(items[2].id, "github-plan-catalog-rust-lang-rust-item-2");
    assert_eq!(items[0].title, "Review README and contribution guide");
    assert_eq!(items[1].title, "Monitor high-priority open issues");
    assert_eq!(items[2].title, "Track release milestones");
    assert_eq!(items[1].issue_id.as_deref(), Some("github-issue-11"));
    assert!(items[0].issue_id.is_none() && items[2].issue_id.is_none());
    assert!(items.iter().enumerate().all(|(k, i)| i.sort_order == k as i32 && i.status == "pending" && i.plan_id == plan.id));
}

#[test]
fn catalog_decisions() {
    assert!(catalog_syncs_issues(&entry(true, 1)));
    assert!(!catalog_syncs_issues(&entry(true, 0)));
    assert!(!catalog_syncs_issues(&entry(false, 5)));
    assert_eq!(catalog_issue_sync(&entry(true, 5), true), CatalogIssueSync::Fetch);
    assert_eq!(catalog_issue_sync(&entry(true, 5), false), CatalogIssueSync::ProviderMissing);
    assert_eq!(catalog_issue_sync(&entry(false, 5), true), CatalogIssueSync::NotRequested);
    assert!(!catalog_pause_before(0));
    assert!(catalog_pause_before(1));
    for on in ["1", "true", "TRUE", "yes", "YES", " yes\n"] {
        assert!(catalog_sync_enabled(Some(on)), "{on}");
    }
    for off in ["0", "True", "no", "", "y"] {
        assert!(!catalog_sync_enabled(Some(off)), "{off}");
    }
    assert!(!catalog_sync_enabled(None));
    assert_eq!(configured_or(None, DEFAULT_CATALOG_TENANT_ID), "100001");
    assert_eq!(configured_or(None, DEFAULT_CATALOG_ORGANIZATION_ID), "0");
    assert_eq!(configured_or(Some("42".to_owned()), DEFAULT_CATALOG_TENANT_ID), "42");
}

#[test]
fn catalog_counters() {
    let mut r = CatalogBootstrapResult::new();
    r.record_repository();
    r.record_issue();
    r.record_issue();
    r.record_plan();
    for _ in 0..3 {
        r.record_plan_item();
    }
    assert_eq!((r.repositories_synced, r.issues_synced, r.plans_created, r.plan_items_created), (1, 2, 1, 3));
}
