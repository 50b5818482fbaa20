//! Domain records of the GitHub integration and of the built-in tracker.
//! Instants are held as [`UtcTimestamp`] values.

use vstd::prelude::*;

verus! {

/// An instant in UTC: whole seconds since the Unix epoch and the nanoseconds
/// past that second.
#[derive(Clone, Copy, Debug, PartialEq, Eq, Structural)]
pub struct UtcTimestamp {
    pub secs: i64,
    pub nanos: u32,
}

/// A repository of the integration catalog.
#[derive(Clone, Debug)]
pub struct Repository {
    pub id: String,
    pub tenant_id: String,
    pub organization_id: String,
    pub full_name: String,
    pub owner: String,
    pub description: Option<String>,
    pub default_branch: Option<String>,
    pub html_url: Option<String>,
    pub is_private: bool,
    pub created_at: UtcTimestamp,
    pub updated_at: UtcTimestamp,
}

/// An issue synced from a repository.
#[derive(Clone, Debug)]
pub struct Issue {
    pub id: String,
    pub tenant_id: String,
    pub organization_id: String,
    pub repository_id: String,
    pub number: i64,
    pub title: String,
    pub state: String,
    pub html_url: Option<String>,
    pub created_at: UtcTimestamp,
    pub updated_at: UtcTimestamp,
}

/// A plan: a titled checklist, optionally tied to a repository.
#[derive(Clone, Debug)]
pub struct Plan {
    pub id: String,
    pub tenant_id: String,
    pub organization_id: String,
    pub repository_id: Option<String>,
    pub title: String,
    pub status: String,
    pub created_at: UtcTimestamp,
    pub updated_at: UtcTimestamp,
}

/// One checklist entry of a plan.
#[derive(Clone, Debug)]
pub struct PlanItem {
    pub id: String,
    pub plan_id: String,
    pub title: String,
    pub status: String,
    pub sort_order: i32,
    pub issue_id: Option<String>,
    pub created_at: UtcTimestamp,
    pub updated_at: UtcTimestamp,
}

/// A plan as the API shows it, with its checklist.
#[derive(Clone, Debug)]
pub struct PlanView {
    pub id: String,
    pub title: String,
    pub status: String,
    pub repository_id: Option<String>,
    pub items: Vec<PlanItemView>,
}

/// A checklist entry as the API shows it.
#[derive(Clone, Debug)]
pub struct PlanItemView {
    pub id: String,
    pub title: String,
    pub status: String,
    pub sort_order: i32,
    pub issue_id: Option<String>,
}

/// Counts of what a catalog bootstrap wrote.
#[derive(Clone, Debug)]
pub struct CatalogBootstrapResult {
    pub repositories_synced: u64,
    pub issues_synced: u64,
    pub plans_created: u64,
    pub plan_items_created: u64,
}

/// One page of a listing.
#[derive(Clone, Debug)]
pub struct Page<T> {
    pub items: Vec<T>,
    pub page: u32,
    pub page_size: u32,
    pub total: u64,
}

/// The outcome of a sync run.
#[derive(Clone, Debug)]
pub struct SyncResult {
    pub provider: String,
    pub synced_count: u64,
}

/// A linked provider account of a tenant scope.
#[derive(Clone, Debug)]
pub struct ProviderAccount {
    pub id: String,
    pub tenant_id: String,
    pub organization_id: String,
    pub provider: String,
    pub external_account_id: Option<String>,
    pub access_token_cipher: String,
    pub scopes: Option<String>,
    pub status: String,
    pub last_synced_at: Option<UtcTimestamp>,
    pub created_at: UtcTimestamp,
    pub updated_at: UtcTimestamp,
}

/// Whether a tenant scope has a linked provider account, and its details.
#[derive(Clone, Debug)]
pub struct IntegrationStatus {
    pub provider: String,
    pub linked: bool,
    pub status: Option<String>,
    pub external_account_id: Option<String>,
    pub scopes: Option<String>,
    pub last_synced_at: Option<UtcTimestamp>,
}

/// A request to link a provider account by its access token.
#[derive(Clone, Debug)]
pub struct LinkIntegrationCommand {
    pub access_token: String,
    pub external_account_id: Option<String>,
    pub scopes: Option<String>,
}

/// What starting an OAuth link hands back.
#[derive(Clone, Debug)]
pub struct OAuthBeginResult {
    pub provider: String,
    pub authorization_url: String,
    pub state: String,
}

/// A linked account as the administration listing shows it.
#[derive(Clone, Debug)]
pub struct AdminIntegrationView {
    pub tenant_id: String,
    pub organization_id: String,
    pub provider: String,
    pub linked: bool,
    pub status: Option<String>,
    pub external_account_id: Option<String>,
    pub scopes: Option<String>,
    pub last_synced_at: Option<UtcTimestamp>,
}

/// A tracker label.
#[derive(Clone, Debug)]
pub struct TrackerLabel {
    pub id: String,
    pub name: String,
    pub color: String,
    pub description: Option<String>,
}

/// A tracker milestone.
#[derive(Clone, Debug)]
pub struct TrackerMilestone {
    pub id: String,
    pub title: String,
    pub description: Option<String>,
    pub status: String,
    pub due_date: Option<String>,
}

/// A milestone with the counts of its open and closed issues.
#[derive(Clone, Debug)]
pub struct MilestoneProgress {
    pub id: String,
    pub title: String,
    pub status: String,
    pub due_date: Option<String>,
    pub total_issues: u64,
    pub open_issues: u64,
    pub closed_issues: u64,
}

/// A tracker issue.
#[derive(Clone, Debug)]
pub struct TrackerIssue {
    pub id: String,
    pub title: String,
    pub description: String,
    pub issue_type: String,
    pub status: String,
    pub priority: String,
    pub submitted_by: String,
    pub assignee_id: Option<String>,
    pub milestone_id: Option<String>,
    pub github_issue_id: Option<String>,
    pub vote_count: i64,
    pub comment_count: i64,
    pub created_at: UtcTimestamp,
    pub updated_at: UtcTimestamp,
}

/// A tracker issue with its labels and milestone.
#[derive(Clone, Debug)]
pub struct TrackerIssueView {
    pub issue: TrackerIssue,
    pub labels: Vec<TrackerLabel>,
    pub milestone: Option<TrackerMilestone>,
}

/// A comment on a tracker issue.
#[derive(Clone, Debug)]
pub struct TrackerComment {
    pub id: String,
    pub issue_id: String,
    pub author_id: String,
    pub content: String,
    pub created_at: UtcTimestamp,
    pub updated_at: UtcTimestamp,
}

/// A tracker roadmap.
#[derive(Clone, Debug)]
pub struct TrackerRoadmap {
    pub id: String,
    pub title: String,
    pub description: Option<String>,
    pub status: String,
    pub start_date: Option<String>,
    pub target_date: Option<String>,
}

/// An issue placed on a roadmap.
#[derive(Clone, Debug)]
pub struct TrackerRoadmapItem {
    pub id: String,
    pub roadmap_id: String,
    pub issue_id: String,
    pub track: Option<String>,
    pub start_date: Option<String>,
    pub target_date: Option<String>,
    pub sort_order: i32,
}

/// A roadmap item with its issue and that issue's labels.
#[derive(Clone, Debug)]
pub struct TrackerRoadmapItemView {
    pub item: TrackerRoadmapItem,
    pub issue: TrackerIssue,
    pub labels: Vec<TrackerLabel>,
}

/// A roadmap with its items.
#[derive(Clone, Debug)]
pub struct TrackerRoadmapView {
    pub roadmap: TrackerRoadmap,
    pub items: Vec<TrackerRoadmapItemView>,
}

/// Filters and order of a tracker issue listing.
#[derive(Clone, Debug)]
pub struct TrackerIssueQuery {
    pub issue_type: Option<String>,
    pub status: Option<String>,
    pub priority: Option<String>,
    pub milestone_id: Option<String>,
    pub label_id: Option<String>,
    pub q: Option<String>,
    pub sort: Option<String>,
}

/// A request to create a tracker issue.
#[derive(Clone, Debug)]
pub struct CreateTrackerIssueCommand {
    pub title: String,
    pub description: String,
    pub issue_type: String,
    pub priority: Option<String>,
    pub milestone_id: Option<String>,
    pub label_ids: Vec<String>,
}

/// A request to change a tracker issue; absent fields stay as they are, and
/// `Some(None)` clears an assignee or milestone.
#[derive(Clone, Debug)]
pub struct UpdateTrackerIssueCommand {
    pub title: Option<String>,
    pub status: Option<String>,
    pub priority: Option<String>,
    pub assignee_id: Option<Option<String>>,
    pub milestone_id: Option<Option<String>>,
    pub label_ids: Option<Vec<String>>,
}

/// A request to place an issue on a roadmap.
#[derive(Clone, Debug)]
pub struct CreateTrackerRoadmapItemCommand {
    pub issue_id: String,
    pub track: Option<String>,
    pub start_date: Option<String>,
    pub target_date: Option<String>,
    pub sort_order: Option<i32>,
}

/// A copy of an optional text.
pub fn copy_opt_string(s: &Option<String>) -> (r: Option<String>)
    ensures
        r == *s,
{
    match s {
        Some(v) => Some(v.clone()),
        None => None,
    }
}

impl TrackerLabel {
    /// A copy of the label.
    pub fn duplicate(&self) -> (r: TrackerLabel)
        ensures
            r == *self,
    {
        TrackerLabel {
            id: self.id.clone(),
            name: self.name.clone(),
            color: self.color.clone(),
            description: copy_opt_string(&self.description),
        }
    }
}

impl TrackerMilestone {
    /// A copy of the milestone.
    pub fn duplicate(&self) -> (r: TrackerMilestone)
        ensures
            r == *self,
    {
        TrackerMilestone {
            id: self.id.clone(),
            title: self.title.clone(),
            description: copy_opt_string(&self.description),
            status: self.status.clone(),
            due_date: copy_opt_string(&self.due_date),
        }
    }
}

impl PlanItemView {
    /// The view of a checklist entry.
    pub open spec fn of(item: PlanItem) -> PlanItemView {
        PlanItemView {
            id: item.id,
            title: item.title,
            status: item.status,
            sort_order: item.sort_order,
            issue_id: item.issue_id,
        }
    }

    /// The view of a checklist entry: its identity, title, status, order
    /// and linked issue.
    pub fn from_item(item: PlanItem) -> (v: PlanItemView)
        ensures
            v == PlanItemView::of(item),
            v.id == item.id,
            v.title == item.title,
            v.status == item.status,
            v.sort_order == item.sort_order,
            v.issue_id == item.issue_id,
    {
        PlanItemView {
            id: item.id,
            title: item.title,
            status: item.status,
            sort_order: item.sort_order,
            issue_id: item.issue_id,
        }
    }

    /// A copy of the view.
    pub fn duplicate(&self) -> (r: PlanItemView)
        ensures
            r == *self,
    {
        PlanItemView {
            id: self.id.clone(),
            title: self.title.clone(),
            status: self.status.clone(),
            sort_order: self.sort_order,
            issue_id: copy_opt_string(&self.issue_id),
        }
    }
}

impl From<PlanItem> for PlanItemView {
    fn from(item: PlanItem) -> (v: PlanItemView) {
        PlanItemView::from_item(item)
    }
}

impl vstd::std_specs::convert::FromSpecImpl<PlanItem> for PlanItemView {
    open spec fn obeys_from_spec() -> bool {
        true
    }

    open spec fn from_spec(item: PlanItem) -> PlanItemView {
        PlanItemView::of(item)
    }
}

/// Law: the view of a checklist entry shows the entry's own id, title,
/// status, order and linked issue, each in its own place.
pub proof fn lemma_item_view_shows_item(item: PlanItem)
    ensures
        PlanItemView::of(item).id == item.id,
        PlanItemView::of(item).title == item.title,
        PlanItemView::of(item).status == item.status,
        PlanItemView::of(item).sort_order == item.sort_order,
        PlanItemView::of(item).issue_id == item.issue_id,
{
}

} // verus!
