use sdkwork_github::domain::UtcTimestamp;
use sdkwork_github::domain::PlanItemView;
use sdkwork_github::rows::{
    admin_view_from_row, comment_from_row, count_total, format_timestamp, issue_from_row,
    parse_optional_ts, parse_ts, plan_from_row, plan_item_from_row, private_flag,
    provider_account_from_row, repository_from_row, tracker_issue_from_row, AdminIntegrationRow,
    CommentRow, IssueRow, PlanItemRow, PlanRow, ProviderAccountRow, RepositoryRow,
    TrackerIssueRow,
};
use sdkwork_github::{api_assembly, gateway_assembly};

#[test]
fn timestamps_round_trip_through_rfc3339() {
    let t = parse_ts("2015-05-15T00:00:00+00:00");
    assert_eq!(t, UtcTimestamp { secs: 1431648000, nanos: 0 });
    let offset = parse_ts("2015-05-15T02:00:00.5+02:00");
    assert_eq!(offset, UtcTimestamp { secs: 1431648000, nanos: 500_000_000 });
    assert_eq!(format_timestamp(t).as_deref(), Some("2015-05-15T00:00:00+00:00"));
    assert_eq!(parse_ts(&format_timestamp(offset).unwrap()), offset);
    assert_eq!(format_timestamp(UtcTimestamp { secs: i64::MAX, nanos: 0 }), None);
    let fallback = parse_ts("not a date");
    assert!(fallback.secs > 1_600_000_000);
    assert_eq!(parse_optional_ts(&None), None);
    assert_eq!(parse_optional_ts(&Some("1970-01-01T00:00:01Z".into())), Some(UtcTimestamp { secs: 1, nanos: 0 }));
}

#[test]
fn repository_rows() {
    assert_eq!(private_flag(true), 1);
    assert_eq!(private_flag(false), 0);
    let row = RepositoryRow {
        id: "github-repo-test-1".into(),
        tenant_id: "100001".into(),
        organization_id: "0".into(),
        full_name: "sdkwork/test".into(),
        owner: "sdkwork".into(),
        description: None,
        default_branch: Some("main".into()),
        html_url: None,
        is_private: 2,
        created_at: "2024-01-01T00:00:00Z".into(),
        updated_at: "2024-01-02T00:00:00Z".into(),
    };
    let r = repository_from_row(row);
    assert!(r.is_private);
    assert_eq!(r.full_name, "sdkwork/test");
    assert_eq!(r.updated_at.secs - r.created_at.secs, 86_400);
}

#[test]
fn assemblies_mount_two_route_crates() {
    assert_eq!(api_assembly::assembly_route_count(), 2);
    assert_eq!(gateway_assembly::assembly_route_count(), 2);
}

#[test]
fn issue_plan_and_item_rows() {
    let issue = issue_from_row(IssueRow {
        id: "github-issue-7".into(),
        tenant_id: "100001".into(),
        organization_id: "0".into(),
        repository_id: "github-repo-1".into(),
        number: 42,
        title: "Crash on start".into(),
        state: "open".into(),
        html_url: Some("https://github.com/sdkwork/test/issues/42".into()),
        created_at: "2024-01-01T00:00:00Z".into(),
        updated_at: "2024-01-01T00:01:00Z".into(),
    });
    assert_eq!(issue.number, 42);
    assert_eq!(issue.state, "open");
    assert_eq!(issue.created_at, UtcTimestamp { secs: 1_704_067_200, nanos: 0 });
    assert_eq!(issue.updated_at.secs - issue.created_at.secs, 60);

    let plan = plan_from_row(PlanRow {
        id: "plan-1".into(),
        tenant_id: "100001".into(),
        organization_id: "0".into(),
        repository_id: None,
        title: "Roadmap".into(),
        status: "active".into(),
        created_at: "2024-01-01T00:00:00Z".into(),
        updated_at: "2024-01-01T00:00:00Z".into(),
    });
    assert_eq!(plan.repository_id, None);
    assert_eq!(plan.title, "Roadmap");

    let item = plan_item_from_row(PlanItemRow {
        id: "plan-1-item-0".into(),
        plan_id: "plan-1".into(),
        title: "Review README".into(),
        status: "pending".into(),
        sort_order: 3,
        issue_id: Some("github-issue-7".into()),
        created_at: "2024-01-01T00:00:00Z".into(),
        updated_at: "2024-01-01T00:00:00Z".into(),
    });
    assert_eq!(item.sort_order, 3);
    let view: PlanItemView = PlanItemView::from(item);
    assert_eq!(view.id, "plan-1-item-0");
    assert_eq!(view.issue_id.as_deref(), Some("github-issue-7"));
    assert_eq!(view.sort_order, 3);
}

#[test]
fn provider_account_and_admin_rows() {
    let account = provider_account_from_row(ProviderAccountRow {
        id: "github-provider-x".into(),
        tenant_id: "100001".into(),
        organization_id: "0".into(),
        provider: "github".into(),
        external_account_id: Some("99".into()),
        access_token_cipher: "cipher".into(),
        scopes: Some("repo".into()),
        status: "active".into(),
        last_synced_at: Some("1970-01-01T00:00:10Z".into()),
        created_at: "1970-01-01T00:00:01Z".into(),
        updated_at: "1970-01-01T00:00:02Z".into(),
    });
    assert_eq!(account.last_synced_at, Some(UtcTimestamp { secs: 10, nanos: 0 }));
    assert_eq!(account.created_at.secs, 1);
    assert_eq!(account.access_token_cipher, "cipher");

    let active = admin_view_from_row(AdminIntegrationRow {
        tenant_id: "100001".into(),
        organization_id: "0".into(),
        provider: "github".into(),
        external_account_id: None,
        scopes: None,
        status: "active".into(),
        last_synced_at: None,
    });
    assert!(active.linked);
    assert_eq!(active.status.as_deref(), Some("active"));
    assert_eq!(active.last_synced_at, None);
    let revoked = admin_view_from_row(AdminIntegrationRow {
        tenant_id: "100001".into(),
        organization_id: "0".into(),
        provider: "github".into(),
        external_account_id: None,
        scopes: None,
        status: "revoked".into(),
        last_synced_at: Some("1970-01-01T00:01:00Z".into()),
    });
    assert!(!revoked.linked);
    assert_eq!(revoked.last_synced_at, Some(UtcTimestamp { secs: 60, nanos: 0 }));
}

#[test]
fn tracker_rows_and_counts() {
    let issue = tracker_issue_from_row(TrackerIssueRow {
        id: "ti-1".into(),
        title: "Dark mode".into(),
        description: "Please".into(),
        issue_type: "feature".into(),
        status: "open".into(),
        priority: "medium".into(),
        submitted_by: "u1".into(),
        assignee_id: None,
        milestone_id: Some("m1".into()),
        github_issue_id: None,
        vote_count: 5,
        comment_count: 2,
        created_at: "1970-01-01T00:00:03Z".into(),
        updated_at: "1970-01-01T00:00:04Z".into(),
    });
    assert_eq!(issue.vote_count, 5);
    assert_eq!(issue.milestone_id.as_deref(), Some("m1"));
    assert_eq!(issue.updated_at.secs, 4);
    let comment = comment_from_row(CommentRow {
        id: "c1".into(),
        issue_id: "ti-1".into(),
        author_id: "u2".into(),
        content: "+1".into(),
        created_at: "1970-01-01T00:00:05Z".into(),
        updated_at: "1970-01-01T00:00:05Z".into(),
    });
    assert_eq!(comment.content, "+1");
    assert_eq!(comment.created_at.secs, 5);
    assert_eq!(count_total(0), 0);
    assert_eq!(count_total(37), 37);
}
