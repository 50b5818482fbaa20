//! Conversions between stored rows and domain records: instants are stored
//! as RFC 3339 texts, privacy as an integer flag.

use vstd::prelude::*;

use crate::domain::{
    AdminIntegrationView, Issue, Plan, PlanItem, ProviderAccount, Repository, TrackerComment,
    TrackerIssue, UtcTimestamp,
};
use crate::integration::admin_integration_view;
use crate::external::{
    format_rfc3339, parse_rfc3339, rfc3339_instant, rfc3339_text, utc_now, TIMESTAMP_SECS_BOUND,
};

verus! {

/// `t` is what the stored text `text` reads as, where it reads as RFC 3339.
pub open spec fn read_from(text: Seq<char>, t: UtcTimestamp) -> bool {
    rfc3339_instant(text) matches Some(read) ==> t == read
}

/// The instant a stored text holds; a text that does not read as RFC 3339
/// stands for the current instant.
pub fn parse_ts(value: &str) -> (t: UtcTimestamp)
    ensures
        read_from(value@, t),
        rfc3339_instant(value@) is None ==> 0 <= t.secs < TIMESTAMP_SECS_BOUND && t.nanos
            < 1_000_000_000,
{
    match parse_rfc3339(value) {
        Some(t) => t,
        None => utc_now(),
    }
}

/// The stored text of an instant, where chrono represents it.
pub fn format_timestamp(value: UtcTimestamp) -> (r: Option<String>)
    ensures
        match r {
            Some(s) => rfc3339_text(value.secs, value.nanos) == Some(s@),
            None => rfc3339_text(value.secs, value.nanos) is None,
        },
{
    format_rfc3339(value)
}

/// The stored flag of a privacy setting: 1 for private, 0 otherwise.
pub fn private_flag(is_private: bool) -> (flag: i64)
    ensures
        flag == (if is_private {
            1i64
        } else {
            0i64
        }),
{
    if is_private {
        1
    } else {
        0
    }
}

/// A stored repository row.
pub struct RepositoryRow {
    pub id: String,
    pub tenant_id: String,
    pub organization_id: String,
    pub full_name: String,
    pub owner: String,
    pub description: Option<String>,
    pub default_branch: Option<String>,
    pub html_url: Option<String>,
    pub is_private: i64,
    pub created_at: String,
    pub updated_at: String,
}

/// The repository a stored row holds: private where the flag is not 0,
/// instants read from their texts.
pub fn repository_from_row(row: RepositoryRow) -> (r: Repository)
    ensures
        r.id == row.id,
        r.tenant_id == row.tenant_id,
        r.organization_id == row.organization_id,
        r.full_name == row.full_name,
        r.owner == row.owner,
        r.description == row.description,
        r.default_branch == row.default_branch,
        r.html_url == row.html_url,
        r.is_private == (row.is_private != 0),
        read_from(row.created_at@, r.created_at),
        read_from(row.updated_at@, r.updated_at),
{
    let created_at = parse_ts(row.created_at.as_str());
    let updated_at = parse_ts(row.updated_at.as_str());
    Repository {
        id: row.id,
        tenant_id: row.tenant_id,
        organization_id: row.organization_id,
        full_name: row.full_name,
        owner: row.owner,
        description: row.description,
        default_branch: row.default_branch,
        html_url: row.html_url,
        is_private: row.is_private != 0,
        created_at,
        updated_at,
    }
}

/// The instant an optional stored text holds.
pub fn parse_optional_ts(value: &Option<String>) -> (t: Option<UtcTimestamp>)
    ensures
        match value {
            Some(v) => t matches Some(read) && read_from(v@, read),
            None => t is None,
        },
{
    match value {
        Some(v) => Some(parse_ts(v.as_str())),
        None => None,
    }
}

/// A stored issue row.
pub struct IssueRow {
    pub id: String,
    pub tenant_id: String,
    pub organization_id: String,
    pub repository_id: String,
    pub number: i64,
    pub title: String,
    pub state: String,
    pub html_url: Option<String>,
    pub created_at: String,
    pub updated_at: String,
}

/// The issue a stored row holds, instants read from their texts.
pub fn issue_from_row(row: IssueRow) -> (r: Issue)
    ensures
        r.id == row.id,
        r.tenant_id == row.tenant_id,
        r.organization_id == row.organization_id,
        r.repository_id == row.repository_id,
        r.number == row.number,
        r.title == row.title,
        r.state == row.state,
        r.html_url == row.html_url,
        read_from(row.created_at@, r.created_at),
        read_from(row.updated_at@, r.updated_at),
{
    let created_at = parse_ts(row.created_at.as_str());
    let updated_at = parse_ts(row.updated_at.as_str());
    Issue {
        id: row.id,
        tenant_id: row.tenant_id,
        organization_id: row.organization_id,
        repository_id: row.repository_id,
        number: row.number,
        title: row.title,
        state: row.state,
        html_url: row.html_url,
        created_at,
        updated_at,
    }
}

/// A stored plan row.
pub struct PlanRow {
    pub id: String,
    pub tenant_id: String,
    pub organization_id: String,
    pub repository_id: Option<String>,
    pub title: String,
    pub status: String,
    pub created_at: String,
    pub updated_at: String,
}

/// The plan a stored row holds, instants read from their texts.
pub fn plan_from_row(row: PlanRow) -> (r: Plan)
    ensures
        r.id == row.id,
        r.tenant_id == row.tenant_id,
        r.organization_id == row.organization_id,
        r.repository_id == row.repository_id,
        r.title == row.title,
        r.status == row.status,
        read_from(row.created_at@, r.created_at),
        read_from(row.updated_at@, r.updated_at),
{
    let created_at = parse_ts(row.created_at.as_str());
    let updated_at = parse_ts(row.updated_at.as_str());
    Plan {
        id: row.id,
        tenant_id: row.tenant_id,
        organization_id: row.organization_id,
        repository_id: row.repository_id,
        title: row.title,
        status: row.status,
        created_at,
        updated_at,
    }
}

/// A stored plan item row.
pub struct PlanItemRow {
    pub id: String,
    pub plan_id: String,
    pub title: String,
    pub status: String,
    pub sort_order: i32,
    pub issue_id: Option<String>,
    pub created_at: String,
    pub updated_at: String,
}

/// The plan item a stored row holds, instants read from their texts.
pub fn plan_item_from_row(row: PlanItemRow) -> (r: PlanItem)
    ensures
        r.id == row.id,
        r.plan_id == row.plan_id,
        r.title == row.title,
        r.status == row.status,
        r.sort_order == row.sort_order,
        r.issue_id == row.issue_id,
        read_from(row.created_at@, r.created_at),
        read_from(row.updated_at@, r.updated_at),
{
    let created_at = parse_ts(row.created_at.as_str());
    let updated_at = parse_ts(row.updated_at.as_str());
    PlanItem {
        id: row.id,
        plan_id: row.plan_id,
        title: row.title,
        status: row.status,
        sort_order: row.sort_order,
        issue_id: row.issue_id,
        created_at,
        updated_at,
    }
}

/// A stored provider account row.
pub struct ProviderAccountRow {
    pub id: String,
    pub tenant_id: String,
    pub organization_id: String,
    pub provider: String,
    pub external_account_id: Option<String>,
    pub access_token_cipher: String,
    pub scopes: Option<String>,
    pub status: String,
    pub last_synced_at: Option<String>,
    pub created_at: String,
    pub updated_at: String,
}

/// The provider account a stored row holds, instants read from their texts.
pub fn provider_account_from_row(row: ProviderAccountRow) -> (r: ProviderAccount)
    ensures
        r.id == row.id,
        r.tenant_id == row.tenant_id,
        r.organization_id == row.organization_id,
        r.provider == row.provider,
        r.external_account_id == row.external_account_id,
        r.access_token_cipher == row.access_token_cipher,
        r.scopes == row.scopes,
        r.status == row.status,
        match row.last_synced_at {
            Some(text) => r.last_synced_at matches Some(t) && read_from(text@, t),
            None => r.last_synced_at is None,
        },
        read_from(row.created_at@, r.created_at),
        read_from(row.updated_at@, r.updated_at),
{
    let last_synced_at = parse_optional_ts(&row.last_synced_at);
    let created_at = parse_ts(row.created_at.as_str());
    let updated_at = parse_ts(row.updated_at.as_str());
    ProviderAccount {
        id: row.id,
        tenant_id: row.tenant_id,
        organization_id: row.organization_id,
        provider: row.provider,
        external_account_id: row.external_account_id,
        access_token_cipher: row.access_token_cipher,
        scopes: row.scopes,
        status: row.status,
        last_synced_at,
        created_at,
        updated_at,
    }
}

/// A stored account row as the administration listing reads it.
pub struct AdminIntegrationRow {
    pub tenant_id: String,
    pub organization_id: String,
    pub provider: String,
    pub external_account_id: Option<String>,
    pub scopes: Option<String>,
    pub status: String,
    pub last_synced_at: Option<String>,
}

/// The administration view of a stored account row: linked exactly when the
/// account is active.
pub fn admin_view_from_row(row: AdminIntegrationRow) -> (v: AdminIntegrationView)
    ensures
        v.tenant_id == row.tenant_id,
        v.organization_id == row.organization_id,
        v.provider == row.provider,
        v.linked == (row.status@ == "active"@),
        v.status == Some(row.status),
        v.external_account_id == row.external_account_id,
        v.scopes == row.scopes,
        match row.last_synced_at {
            Some(text) => v.last_synced_at matches Some(t) && read_from(text@, t),
            None => v.last_synced_at is None,
        },
{
    let last_synced_at = parse_optional_ts(&row.last_synced_at);
    admin_integration_view(
        row.tenant_id,
        row.organization_id,
        row.provider,
        row.external_account_id,
        row.scopes,
        row.status,
        last_synced_at,
    )
}

/// A stored tracker issue row.
pub struct TrackerIssueRow {
    pub id: String,
    pub title: String,
    pub description: String,
    pub issue_type: String,
    pub status: String,
    pub priority: String,
    pub submitted_by: String,
    pub assignee_id: Option<String>,
    pub milestone_id: Option<String>,
    pub github_issue_id: Option<String>,
    pub vote_count: i64,
    pub comment_count: i64,
    pub created_at: String,
    pub updated_at: String,
}

/// The tracker issue a stored row holds, instants read from their texts.
pub fn tracker_issue_from_row(row: TrackerIssueRow) -> (r: TrackerIssue)
    ensures
        r.id == row.id,
        r.title == row.title,
        r.description == row.description,
        r.issue_type == row.issue_type,
        r.status == row.status,
        r.priority == row.priority,
        r.submitted_by == row.submitted_by,
        r.assignee_id == row.assignee_id,
        r.milestone_id == row.milestone_id,
        r.github_issue_id == row.github_issue_id,
        r.vote_count == row.vote_count,
        r.comment_count == row.comment_count,
        read_from(row.created_at@, r.created_at),
        read_from(row.updated_at@, r.updated_at),
{
    let created_at = parse_ts(row.created_at.as_str());
    let updated_at = parse_ts(row.updated_at.as_str());
    TrackerIssue {
        id: row.id,
        title: row.title,
        description: row.description,
        issue_type: row.issue_type,
        status: row.status,
        priority: row.priority,
        submitted_by: row.submitted_by,
        assignee_id: row.assignee_id,
        milestone_id: row.milestone_id,
        github_issue_id: row.github_issue_id,
        vote_count: row.vote_count,
        comment_count: row.comment_count,
        created_at,
        updated_at,
    }
}

/// A stored tracker comment row.
pub struct CommentRow {
    pub id: String,
    pub issue_id: String,
    pub author_id: String,
    pub content: String,
    pub created_at: String,
    pub updated_at: String,
}

/// The comment a stored row holds, instants read from their texts.
pub fn comment_from_row(row: CommentRow) -> (r: TrackerComment)
    ensures
        r.id == row.id,
        r.issue_id == row.issue_id,
        r.author_id == row.author_id,
        r.content == row.content,
        read_from(row.created_at@, r.created_at),
        read_from(row.updated_at@, r.updated_at),
{
    let created_at = parse_ts(row.created_at.as_str());
    let updated_at = parse_ts(row.updated_at.as_str());
    TrackerComment {
        id: row.id,
        issue_id: row.issue_id,
        author_id: row.author_id,
        content: row.content,
        created_at,
        updated_at,
    }
}

/// A page's total from a stored row count, as an unsigned number (a count
/// is never negative).
pub fn count_total(count: i64) -> (total: u64)
    ensures
        total == count as u64,
        count >= 0 ==> total == count,
{
    count as u64
}

} // verus!
