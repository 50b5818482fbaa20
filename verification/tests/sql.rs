use sdkwork_github::domain::{TrackerIssueQuery, UpdateTrackerIssueCommand};
use sdkwork_github::sql::{
    join, milestone_progress_from_counts, milestone_progress_statement, number_parts,
    page_offset, ph, tracker_issue_list_statement, tracker_issue_update_statement,
    tracker_roadmap_update_statement, SqlValue,
};
use sdkwork_github::sql::{
    issue_list_statement, plan_list_statement, repository_list_statement, ISSUE_COLUMNS,
    PLAN_COLUMNS, REPOSITORY_COLUMNS,
};

fn query() -> TrackerIssueQuery {
    TrackerIssueQuery { issue_type: None, status: None, priority: None, milestone_id: None, label_id: None, q: None, sort: None }
}

const COLS: &str = "id, title, description, type, status, priority, submitted_by, assignee_id, milestone_id, github_issue_id, vote_count, comment_count, created_at, updated_at";

#[test]
fn placeholders_and_offsets() {
    assert_eq!(ph(1), "$1");
    assert_eq!(ph(12), "$12");
    assert_eq!(page_offset(1, 20), 0);
    assert_eq!(page_offset(0, 20), 0);
    assert_eq!(page_offset(3, 20), 40);
    let parts = number_parts(&vec!["a = ".to_owned(), "b = ".to_owned()], 4);
    assert_eq!(parts, vec!["a = $4", "b = $5"]);
    assert_eq!(join(&parts, " AND "), "a = $4 AND b = $5");
    assert_eq!(join(&vec![], ", "), "");
}

#[test]
fn plain_issue_listing() {
    let st = tracker_issue_list_statement("100001", "0", &query());
    assert_eq!(st.count_sql, "SELECT COUNT(*) FROM github_tracker_issue WHERE tenant_id = $1 AND organization_id = $2");
    assert_eq!(st.select_sql, format!("SELECT {COLS} FROM github_tracker_issue WHERE tenant_id = $1 AND organization_id = $2 ORDER BY created_at DESC LIMIT $3 OFFSET $4"));
    assert_eq!(st.binds, vec!["100001", "0"]);
}

#[test]
fn filtered_issue_listing() {
    let mut q = query();
    q.issue_type = Some("feature".into());
    q.priority = Some("high".into());
    q.label_id = Some("ignored".into());
    q.q = Some("crash".into());
    q.sort = Some("most_voted".into());
    let st = tracker_issue_list_statement("t", "o", &q);
    let where_sql = "tenant_id = $1 AND organization_id = $2 AND type = $3 AND priority = $4 AND title LIKE $5";
    assert_eq!(st.count_sql, format!("SELECT COUNT(*) FROM github_tracker_issue WHERE {where_sql}"));
    assert_eq!(st.select_sql, format!("SELECT {COLS} FROM github_tracker_issue WHERE {where_sql} ORDER BY vote_count DESC, created_at DESC LIMIT $6 OFFSET $7"));
    assert_eq!(st.binds, vec!["t", "o", "feature", "high", "%crash%"]);
    for (sort, order) in [("oldest", "created_at ASC"), ("most_commented", "comment_count DESC, created_at DESC"), ("newest", "created_at DESC"), ("weird", "created_at DESC")] {
        let mut q = query();
        q.status = Some("open".into());
        q.milestone_id = Some("m".into());
        q.sort = Some(sort.into());
        let st = tracker_issue_list_statement("t", "o", &q);
        assert!(st.select_sql.ends_with(&format!("status = $3 AND milestone_id = $4 ORDER BY {order} LIMIT $5 OFFSET $6")), "{}", st.select_sql);
    }
}

fn texts(binds: &[SqlValue]) -> Vec<String> {
    binds.iter().map(|b| match b {
        SqlValue::Text(t) => t.clone(),
        SqlValue::NullableText(Some(t)) => format!("?{t}"),
        SqlValue::NullableText(None) => "NULL".to_owned(),
    }).collect()
}

#[test]
fn issue_update_statement() {
    let command = UpdateTrackerIssueCommand { title: None, status: Some("closed".into()), priority: None, assignee_id: Some(None), milestone_id: Some(Some("m1".into())), label_ids: Some(vec![]) };
    let st = tracker_issue_update_statement("t", "o", "i1", &command, "2026-01-01T00:00:00+00:00");
    assert_eq!(st.sql, "UPDATE github_tracker_issue SET status = $1, assignee_id = $2, milestone_id = $3, updated_at = $4 WHERE id = $5 AND tenant_id = $6 AND organization_id = $7");
    assert_eq!(texts(&st.binds), vec!["closed", "NULL", "?m1", "2026-01-01T00:00:00+00:00", "i1", "t", "o"]);
    let empty = UpdateTrackerIssueCommand { title: None, status: None, priority: None, assignee_id: None, milestone_id: None, label_ids: None };
    let st = tracker_issue_update_statement("t", "o", "i1", &empty, "now");
    assert_eq!(st.sql, "UPDATE github_tracker_issue SET updated_at = $1 WHERE id = $2 AND tenant_id = $3 AND organization_id = $4");
    assert_eq!(texts(&st.binds), vec!["now", "i1", "t", "o"]);
}

#[test]
fn roadmap_update_statement() {
    let st = tracker_roadmap_update_statement("t", "o", "r1", Some("Q3"), Some(None), None, Some(Some("2026-07-01")), None, "now");
    assert_eq!(st.sql, "UPDATE github_tracker_roadmap SET title = $1, description = $2, start_date = $3, updated_at = $4 WHERE id = $5 AND tenant_id = $6 AND organization_id = $7");
    assert_eq!(texts(&st.binds), vec!["Q3", "NULL", "?2026-07-01", "now", "r1", "t", "o"]);
}

#[test]
fn milestone_progress() {
    let st = milestone_progress_statement("t", "o", Some("open"));
    assert!(st.sql.starts_with("SELECT m.id, m.title, m.status, m.due_date, COUNT(i.id) as total_issues"));
    assert!(st.sql.contains("\n             FROM github_tracker_milestone m LEFT JOIN"));
    assert!(st.sql.ends_with("WHERE m.tenant_id = $1 AND m.organization_id = $2 AND m.status = $3 GROUP BY m.id ORDER BY m.due_date ASC NULLS LAST"));
    assert_eq!(st.binds, vec!["t", "o", "open"]);
    let st = milestone_progress_statement("t", "o", None);
    assert!(st.sql.ends_with("WHERE m.tenant_id = $1 AND m.organization_id = $2 GROUP BY m.id ORDER BY m.due_date ASC NULLS LAST"));
    assert_eq!(st.binds.len(), 2);
    let p = milestone_progress_from_counts("m".into(), "M".into(), "open".into(), None, 3, Some(2), None);
    assert_eq!((p.total_issues, p.open_issues, p.closed_issues), (3, 2, 0));
}

#[test]
fn listings_are_scoped_and_paged() {
    let st = repository_list_statement("100001", "0");
    assert_eq!(st.count_sql, "SELECT COUNT(*) FROM github_repository WHERE tenant_id = $1 AND organization_id = $2");
    assert_eq!(
        st.select_sql,
        format!("SELECT {REPOSITORY_COLUMNS} FROM github_repository WHERE tenant_id = $1 AND organization_id = $2 ORDER BY updated_at DESC LIMIT $3 OFFSET $4")
    );
    assert_eq!(st.binds, vec!["100001", "0"]);

    let st = plan_list_statement("t", "o");
    assert_eq!(
        st.select_sql,
        format!("SELECT {PLAN_COLUMNS} FROM github_plan WHERE tenant_id = $1 AND organization_id = $2 ORDER BY updated_at DESC LIMIT $3 OFFSET $4")
    );

    let st = issue_list_statement("t", "o", Some("github-repo-1"));
    assert_eq!(st.count_sql, "SELECT COUNT(*) FROM github_issue WHERE tenant_id = $1 AND organization_id = $2 AND repository_id = $3");
    assert_eq!(
        st.select_sql,
        format!("SELECT {ISSUE_COLUMNS} FROM github_issue WHERE tenant_id = $1 AND organization_id = $2 AND repository_id = $3 ORDER BY number DESC LIMIT $4 OFFSET $5")
    );
    assert_eq!(st.binds, vec!["t", "o", "github-repo-1"]);

    let st = issue_list_statement("t", "o", None);
    assert_eq!(
        st.select_sql,
        format!("SELECT {ISSUE_COLUMNS} FROM github_issue WHERE tenant_id = $1 AND organization_id = $2 ORDER BY updated_at DESC LIMIT $3 OFFSET $4")
    );
    assert_eq!(st.binds, vec!["t", "o"]);
}
