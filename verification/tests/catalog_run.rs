use sdkwork_github::catalog_run::{
    CatalogAction, CatalogEvent, CatalogRun, CatalogSetup, CatalogWrite,
};
use sdkwork_github::domain::UtcTimestamp;
use sdkwork_github::records::{CatalogEntry, RemoteIssue, RemoteRepository};

const NOW: UtcTimestamp = UtcTimestamp { secs: 1_700_000_000, nanos: 0 };

fn entry(owner: &str, name: &str, sync_issues: bool, max_issues: u32) -> CatalogEntry {
    CatalogEntry {
        owner: owner.into(),
        name: name.into(),
        sync_issues,
        max_issues,
        plan_title: format!("Watch {owner}/{name}"),
    }
}

fn remote_repository(id: u64, full_name: &str) -> RemoteRepository {
    RemoteRepository {
        id,
        full_name: full_name.into(),
        owner_login: full_name.split('/').next().unwrap().into(),
        description: None,
        default_branch: Some("main".into()),
        html_url: None,
        private: false,
    }
}

fn remote_issue(id: u64, number: i64) -> RemoteIssue {
    RemoteIssue {
        id,
        number,
        title: format!("issue {number}"),
        state: "open".into(),
        html_url: None,
    }
}

fn setup(entries: Vec<CatalogEntry>, provider_available: bool) -> CatalogSetup {
    CatalogSetup {
        tenant_id: "100001".into(),
        organization_id: "0".into(),
        now: NOW,
        provider_available,
        entries,
    }
}

fn step(run: &mut CatalogRun, event: CatalogEvent) -> CatalogAction {
    assert!(run.accepts_event(&event));
    assert!(run.has_room());
    run.advance(event)
}

#[test]
fn catalog_run_skips_failed_reads_and_writes_entries_in_order() {
    let (mut run, action) = CatalogRun::start(setup(
        vec![entry("rust-lang", "rust", true, 2), entry("tokio-rs", "tokio", true, 5)],
        true,
    ));
    match action {
        CatalogAction::FetchRepository { owner, name } => {
            assert_eq!((owner.as_str(), name.as_str()), ("rust-lang", "rust"));
        }
        _ => panic!("the first entry starts with its repository"),
    }
    // The first read fails: the entry is skipped, the next one waits a pause.
    match step(&mut run, CatalogEvent::RepositoryFetched(None)) {
        CatalogAction::Pause { millis } => assert_eq!(millis, 300),
        _ => panic!("a pause comes before the second entry"),
    }
    match step(&mut run, CatalogEvent::Paused) {
        CatalogAction::FetchRepository { owner, .. } => assert_eq!(owner, "tokio-rs"),
        _ => panic!("the second repository is read after the pause"),
    }
    let writes = match step(
        &mut run,
        CatalogEvent::RepositoryFetched(Some(remote_repository(77, "tokio-rs/tokio"))),
    ) {
        CatalogAction::Write(writes) => writes,
        _ => panic!("the repository record is written"),
    };
    assert_eq!(writes.len(), 1);
    match &writes[0] {
        CatalogWrite::Repository(r) => {
            assert_eq!(r.id, "github-repo-77");
            assert_eq!(r.tenant_id, "100001");
            assert_eq!(r.owner, "tokio-rs");
        }
        _ => panic!("a repository record"),
    }
    match step(&mut run, CatalogEvent::Written) {
        CatalogAction::FetchIssues { owner, name } => {
            assert_eq!((owner.as_str(), name.as_str()), ("tokio-rs", "tokio"));
        }
        _ => panic!("issues are read for an entry that asks for them"),
    }
    let issues = (1..=7).map(|n| remote_issue(1000 + n, n as i64)).collect();
    let writes = match step(&mut run, CatalogEvent::IssuesFetched(Some(issues))) {
        CatalogAction::Write(writes) => writes,
        _ => panic!("the rest of the entry is written"),
    };
    assert_eq!(writes.len(), 5 + 1 + 3);
    for (k, w) in writes.iter().take(5).enumerate() {
        match w {
            CatalogWrite::Issue(i) => {
                assert_eq!(i.id, format!("github-issue-{}", 1001 + k));
                assert_eq!(i.repository_id, "github-repo-77");
            }
            _ => panic!("issues come first"),
        }
    }
    match &writes[5] {
        CatalogWrite::Plan(p) => {
            assert_eq!(p.id, "github-plan-catalog-tokio-rs-tokio");
            assert_eq!(p.repository_id.as_deref(), Some("github-repo-77"));
            assert_eq!(p.status, "active");
        }
        _ => panic!("then the plan"),
    }
    for (m, w) in writes.iter().skip(6).enumerate() {
        match w {
            CatalogWrite::PlanItem(item) => {
                assert_eq!(item.id, format!("github-plan-catalog-tokio-rs-tokio-item-{m}"));
                assert_eq!(item.sort_order, m as i32);
                let linked = if m == 1 { Some("github-issue-1001") } else { None };
                assert_eq!(item.issue_id.as_deref(), linked);
            }
            _ => panic!("then the checklist"),
        }
    }
    match step(&mut run, CatalogEvent::Written) {
        CatalogAction::Finish(result) => {
            assert_eq!(result.repositories_synced, 1);
            assert_eq!(result.issues_synced, 5);
            assert_eq!(result.plans_created, 1);
            assert_eq!(result.plan_items_created, 3);
        }
        _ => panic!("the run ends after the last entry"),
    }
    assert!(!run.accepts_event(&CatalogEvent::Written));
}

#[test]
fn catalog_run_without_credential_writes_plans_without_issues() {
    let (mut run, _) = CatalogRun::start(setup(vec![entry("a", "b", true, 3)], false));
    step(&mut run, CatalogEvent::RepositoryFetched(Some(remote_repository(5, "a/b"))));
    let writes = match step(&mut run, CatalogEvent::Written) {
        CatalogAction::Write(writes) => writes,
        _ => panic!("no issue read without a credential"),
    };
    assert_eq!(writes.len(), 4);
    match &writes[2] {
        CatalogWrite::PlanItem(item) => assert_eq!(item.issue_id, None),
        _ => panic!("the checklist follows the plan"),
    }
    match step(&mut run, CatalogEvent::Written) {
        CatalogAction::Finish(result) => {
            assert_eq!(result.repositories_synced, 1);
            assert_eq!(result.issues_synced, 0);
            assert_eq!(result.plan_items_created, 3);
        }
        _ => panic!("finished"),
    }
}

#[test]
fn catalog_run_with_failed_issue_read_keeps_the_plan() {
    let (mut run, _) = CatalogRun::start(setup(vec![entry("a", "b", true, 3)], true));
    step(&mut run, CatalogEvent::RepositoryFetched(Some(remote_repository(5, "a/b"))));
    assert!(matches!(step(&mut run, CatalogEvent::Written), CatalogAction::FetchIssues { .. }));
    match step(&mut run, CatalogEvent::IssuesFetched(None)) {
        CatalogAction::Write(writes) => assert_eq!(writes.len(), 4),
        _ => panic!("the plan is written even when the issues could not be read"),
    }
}

#[test]
fn empty_catalog_finishes_at_once() {
    let (run, action) = CatalogRun::start(setup(Vec::new(), true));
    match action {
        CatalogAction::Finish(result) => {
            assert_eq!(result.repositories_synced, 0);
            assert_eq!(result.plans_created, 0);
        }
        _ => panic!("nothing to do"),
    }
    assert!(!run.accepts_event(&CatalogEvent::Paused));
}
