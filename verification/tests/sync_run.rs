use sdkwork_github::domain::{Repository, UtcTimestamp};
use sdkwork_github::error::ServiceError;
use sdkwork_github::records::{RemoteIssue, RemoteRepository};
use sdkwork_github::sync_run::{SyncAction, SyncEvent, SyncRun, SyncSetup};

const NOW: UtcTimestamp = UtcTimestamp { secs: 1_700_000_000, nanos: 0 };

fn setup() -> SyncSetup {
    SyncSetup {
        tenant_id: "100001".into(),
        organization_id: "0".into(),
        now: NOW,
        provider: "github".into(),
    }
}

fn repository(id: &str, full_name: &str) -> Repository {
    Repository {
        id: id.into(),
        tenant_id: "100001".into(),
        organization_id: "0".into(),
        full_name: full_name.into(),
        owner: full_name.split('/').next().unwrap_or("").into(),
        description: None,
        default_branch: None,
        html_url: None,
        is_private: false,
        created_at: NOW,
        updated_at: NOW,
    }
}

fn remote_issue(id: u64) -> RemoteIssue {
    RemoteIssue { id, number: id as i64, title: format!("#{id}"), state: "open".into(), html_url: None }
}

fn step(run: &mut SyncRun, event: SyncEvent) -> SyncAction {
    assert!(run.accepts_event(&event));
    assert!(run.has_room());
    run.advance(event)
}

#[test]
fn repository_sync_writes_then_touches_once_and_counts() {
    let remotes = vec![
        RemoteRepository {
            id: 1,
            full_name: "a/b".into(),
            owner_login: "a".into(),
            description: None,
            default_branch: None,
            html_url: None,
            private: true,
        },
        RemoteRepository {
            id: 2,
            full_name: "a/c".into(),
            owner_login: "a".into(),
            description: None,
            default_branch: None,
            html_url: None,
            private: false,
        },
    ];
    let (mut run, action) = SyncRun::start_repository_sync(remotes, setup());
    match action {
        SyncAction::WriteRepositories(rs) => {
            assert_eq!(rs.len(), 2);
            assert_eq!(rs[0].id, "github-repo-1");
            assert!(rs[0].is_private);
        }
        _ => panic!("the records are written first"),
    }
    assert!(matches!(step(&mut run, SyncEvent::Written), SyncAction::Touch));
    match step(&mut run, SyncEvent::Touched) {
        SyncAction::Finish(result) => {
            assert_eq!(result.provider, "github");
            assert_eq!(result.synced_count, 2);
        }
        _ => panic!("the sync ends after the touch"),
    }
}

#[test]
fn issue_sync_walks_the_selected_repositories() {
    let listed = vec![repository("r1", "a/one"), repository("r2", "a/two"), repository("r3", "a/three")];
    let (mut run, action) = SyncRun::start_issue_sync(listed, None, setup());
    match action {
        SyncAction::FetchIssues { owner, repo } => assert_eq!((owner.as_str(), repo.as_str()), ("a", "one")),
        _ => panic!("the first repository's issues are read"),
    }
    match step(&mut run, SyncEvent::IssuesFetched(vec![remote_issue(10), remote_issue(11)])) {
        SyncAction::WriteIssues(is) => {
            assert_eq!(is.len(), 2);
            assert_eq!(is[1].id, "github-issue-11");
            assert_eq!(is[1].repository_id, "r1");
        }
        _ => panic!("the issues are written"),
    }
    assert!(matches!(step(&mut run, SyncEvent::Written), SyncAction::FetchIssues { .. }));
    assert!(matches!(step(&mut run, SyncEvent::IssuesFetched(vec![remote_issue(12)])), SyncAction::WriteIssues(_)));
    assert!(matches!(step(&mut run, SyncEvent::Written), SyncAction::FetchIssues { .. }));
    assert!(matches!(step(&mut run, SyncEvent::IssuesFetched(Vec::new())), SyncAction::WriteIssues(_)));
    assert!(matches!(step(&mut run, SyncEvent::Written), SyncAction::Touch));
    match step(&mut run, SyncEvent::Touched) {
        SyncAction::Finish(result) => assert_eq!(result.synced_count, 3),
        _ => panic!("finished"),
    }
}

#[test]
fn issue_sync_stops_at_the_first_failure() {
    let listed = vec![repository("r1", "a/one"), repository("r2", "a/two")];
    let (mut run, _) = SyncRun::start_issue_sync(listed, Some("r2"), setup());
    match step(&mut run, SyncEvent::FetchFailed("rate limited".into())) {
        SyncAction::Fail(ServiceError::Integration(m)) => assert_eq!(m, "rate limited"),
        _ => panic!("a failed read ends the sync"),
    }
    assert!(!run.accepts_event(&SyncEvent::Touched));

    let (mut run, _) = SyncRun::start_issue_sync(vec![repository("r1", "a/one")], None, setup());
    step(&mut run, SyncEvent::IssuesFetched(vec![remote_issue(1)]));
    match step(&mut run, SyncEvent::WriteFailed(ServiceError::Repository("down".into()))) {
        SyncAction::Fail(ServiceError::Repository(m)) => assert_eq!(m, "down"),
        _ => panic!("a failed write ends the sync without a touch"),
    }
}

#[test]
fn issue_sync_rejects_empty_selection_and_bad_names() {
    let (_, action) = SyncRun::start_issue_sync(vec![repository("r1", "a/one")], Some("zz"), setup());
    match action {
        SyncAction::Fail(ServiceError::Validation(m)) => {
            assert_eq!(m, "sync issues requires at least one tracked repository")
        }
        _ => panic!("no repository selected"),
    }
    let (_, action) = SyncRun::start_issue_sync(vec![repository("r1", "nohost")], None, setup());
    match action {
        SyncAction::Fail(ServiceError::Validation(m)) => {
            assert_eq!(m, "invalid repository full_name: nohost")
        }
        _ => panic!("a full name without / fails"),
    }
}
