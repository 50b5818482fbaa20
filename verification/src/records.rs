//! Records the sync and catalog runs write: repositories and issues derived
//! from what GitHub reports, catalog plans with their checklists, and the
//! counts each run reports.

use vstd::prelude::*;

use crate::domain::{
    copy_opt_string, CatalogBootstrapResult, Issue, Plan, PlanItem, Repository, SyncResult,
    UtcTimestamp,
};
use crate::error::{validation_error, ServiceError};
use crate::text::{concat2, decimal, lemma_decimal_injective, push_decimal, push_text, text_eq, trim};

verus! {

/// A repository as GitHub reports it.
#[derive(Clone, Debug)]
pub struct RemoteRepository {
    pub id: u64,
    pub full_name: String,
    pub owner_login: String,
    pub description: Option<String>,
    pub default_branch: Option<String>,
    pub html_url: Option<String>,
    pub private: bool,
}

/// An issue as GitHub reports it.
#[derive(Clone, Debug)]
pub struct RemoteIssue {
    pub id: u64,
    pub number: i64,
    pub title: String,
    pub state: String,
    pub html_url: Option<String>,
}

/// One repository of the notable catalog.
#[derive(Clone, Debug)]
pub struct CatalogEntry {
    pub owner: String,
    pub name: String,
    pub sync_issues: bool,
    pub max_issues: u32,
    pub plan_title: String,
}

/// The id a repository record takes from GitHub's id.
pub open spec fn repository_record_id(remote_id: u64) -> Seq<char> {
    "github-repo-"@ + decimal(remote_id as nat)
}

/// The id an issue record takes from GitHub's id.
pub open spec fn issue_record_id(remote_id: u64) -> Seq<char> {
    "github-issue-"@ + decimal(remote_id as nat)
}

/// `r` is the record of `remote` for the tenant scope, stamped `now`.
pub open spec fn is_repository_record(
    r: Repository,
    remote: RemoteRepository,
    tenant_id: Seq<char>,
    organization_id: Seq<char>,
    now: UtcTimestamp,
) -> bool {
    &&& r.id@ == repository_record_id(remote.id)
    &&& r.tenant_id@ == tenant_id
    &&& r.organization_id@ == organization_id
    &&& r.full_name == remote.full_name
    &&& r.owner == remote.owner_login
    &&& r.description == remote.description
    &&& r.default_branch == remote.default_branch
    &&& r.html_url == remote.html_url
    &&& r.is_private == remote.private
    &&& r.created_at == now
    &&& r.updated_at == now
}

/// `r` is the record of `remote` for the tenant scope, in the repository
/// `repository_id`, stamped `now`.
pub open spec fn is_issue_record(
    r: Issue,
    remote: RemoteIssue,
    tenant_id: Seq<char>,
    organization_id: Seq<char>,
    repository_id: Seq<char>,
    now: UtcTimestamp,
) -> bool {
    &&& r.id@ == issue_record_id(remote.id)
    &&& r.tenant_id@ == tenant_id
    &&& r.organization_id@ == organization_id
    &&& r.repository_id@ == repository_id
    &&& r.number == remote.number
    &&& r.title == remote.title
    &&& r.state == remote.state
    &&& r.html_url == remote.html_url
    &&& r.created_at == now
    &&& r.updated_at == now
}

/// Law: a repository record holds what GitHub reported of the repository,
/// in the scope it was synced for: its id is `github-repo-` and GitHub's id;
/// name, owner, description, default branch, address and privacy are the
/// reported ones; both timestamps are the sync's.
pub proof fn lemma_repository_record_keeps_remote(
    r: Repository,
    remote: RemoteRepository,
    tenant_id: Seq<char>,
    organization_id: Seq<char>,
    now: UtcTimestamp,
)
    requires
        is_repository_record(r, remote, tenant_id, organization_id, now),
    ensures
        r.id@ == "github-repo-"@ + decimal(remote.id as nat),
        r.tenant_id@ == tenant_id,
        r.organization_id@ == organization_id,
        r.full_name == remote.full_name,
        r.owner == remote.owner_login,
        r.description == remote.description,
        r.default_branch == remote.default_branch,
        r.html_url == remote.html_url,
        r.is_private == remote.private,
        r.created_at == now,
        r.updated_at == now,
{
}

/// Law: an issue record holds what GitHub reported of the issue, in the
/// scope and repository it was synced for: its id is `github-issue-` and
/// GitHub's id; number, title, state (open or closed as reported) and
/// address are the reported ones; both timestamps are the sync's.
pub proof fn lemma_issue_record_keeps_remote(
    r: Issue,
    remote: RemoteIssue,
    tenant_id: Seq<char>,
    organization_id: Seq<char>,
    repository_id: Seq<char>,
    now: UtcTimestamp,
)
    requires
        is_issue_record(r, remote, tenant_id, organization_id, repository_id, now),
    ensures
        r.id@ == "github-issue-"@ + decimal(remote.id as nat),
        r.tenant_id@ == tenant_id,
        r.organization_id@ == organization_id,
        r.repository_id@ == repository_id,
        r.number == remote.number,
        r.title == remote.title,
        r.state == remote.state,
        r.html_url == remote.html_url,
        r.created_at == now,
        r.updated_at == now,
{
}

/// Law: two issues GitHub reports in different states are stored in
/// different states; a sync never makes a closed issue open or an open one
/// closed.
pub proof fn lemma_issue_records_keep_states_apart(
    r1: Issue,
    remote1: RemoteIssue,
    r2: Issue,
    remote2: RemoteIssue,
    tenant_id: Seq<char>,
    organization_id: Seq<char>,
    repository_id: Seq<char>,
    now: UtcTimestamp,
)
    requires
        is_issue_record(r1, remote1, tenant_id, organization_id, repository_id, now),
        is_issue_record(r2, remote2, tenant_id, organization_id, repository_id, now),
    ensures
        r1.state == r2.state <==> remote1.state == remote2.state,
        r1.title == r2.title <==> remote1.title == remote2.title,
{
}

/// The record of a repository GitHub reported.
pub fn repository_from_remote(
    remote: RemoteRepository,
    tenant_id: &str,
    organization_id: &str,
    now: UtcTimestamp,
) -> (r: Repository)
    ensures
        is_repository_record(r, remote, tenant_id@, organization_id@, now),
        r.id@ == "github-repo-"@ + decimal(remote.id as nat),
        r.tenant_id@ == tenant_id@,
        r.organization_id@ == organization_id@,
        r.full_name == remote.full_name,
        r.owner == remote.owner_login,
        r.description == remote.description,
        r.default_branch == remote.default_branch,
        r.html_url == remote.html_url,
        r.is_private == remote.private,
        r.created_at == now,
        r.updated_at == now,
{
    let mut id = String::from_str("github-repo-");
    push_decimal(&mut id, remote.id);
    Repository {
        id,
        tenant_id: String::from_str(tenant_id),
        organization_id: String::from_str(organization_id),
        full_name: remote.full_name,
        owner: remote.owner_login,
        description: remote.description,
        default_branch: remote.default_branch,
        html_url: remote.html_url,
        is_private: remote.private,
        created_at: now,
        updated_at: now,
    }
}

/// The record of an issue GitHub reported for a repository.
pub fn issue_from_remote(
    remote: RemoteIssue,
    tenant_id: &str,
    organization_id: &str,
    repository_id: &str,
    now: UtcTimestamp,
) -> (r: Issue)
    ensures
        is_issue_record(r, remote, tenant_id@, organization_id@, repository_id@, now),
        r.id@ == "github-issue-"@ + decimal(remote.id as nat),
        r.tenant_id@ == tenant_id@,
        r.organization_id@ == organization_id@,
        r.repository_id@ == repository_id@,
        r.number == remote.number,
        r.title == remote.title,
        r.state == remote.state,
        r.html_url == remote.html_url,
        r.created_at == now,
        r.updated_at == now,
{
    let mut id = String::from_str("github-issue-");
    push_decimal(&mut id, remote.id);
    Issue {
        id,
        tenant_id: String::from_str(tenant_id),
        organization_id: String::from_str(organization_id),
        repository_id: String::from_str(repository_id),
        number: remote.number,
        title: remote.title,
        state: remote.state,
        html_url: remote.html_url,
        created_at: now,
        updated_at: now,
    }
}

/// The records of all repositories GitHub reported, in order.
pub fn repositories_from_remote(
    remotes: Vec<RemoteRepository>,
    tenant_id: &str,
    organization_id: &str,
    now: UtcTimestamp,
) -> (rs: Vec<Repository>)
    ensures
        rs@.len() == remotes@.len(),
        forall|k: int|
            0 <= k < rs@.len() ==> is_repository_record(
                #[trigger] rs@[k],
                remotes@[k],
                tenant_id@,
                organization_id@,
                now,
            ),
{
    let ghost input = remotes@;
    let mut rest = remotes;
    let mut rs: Vec<Repository> = Vec::new();
    let n = rest.len();
    let mut i: usize = 0;
    while i < n
        invariant
            n == input.len(),
            i <= n,
            rest@ == input.skip(i as int),
            rs@.len() == i,
            forall|k: int|
                0 <= k < i ==> is_repository_record(
                    #[trigger] rs@[k],
                    input[k],
                    tenant_id@,
                    organization_id@,
                    now,
                ),
        decreases n - i,
    {
        assert(rest@[0] == input[i as int]);
        let remote = rest.remove(0);
        assert(rest@ =~= input.skip(i + 1));
        rs.push(repository_from_remote(remote, tenant_id, organization_id, now));
        i = i + 1;
    }
    rs
}

/// The records of the first `limit` issues GitHub reported, in order.
pub fn issues_from_remote(
    remotes: Vec<RemoteIssue>,
    limit: usize,
    tenant_id: &str,
    organization_id: &str,
    repository_id: &str,
    now: UtcTimestamp,
) -> (rs: Vec<Issue>)
    ensures
        rs@.len() == if remotes@.len() < limit {
            remotes@.len() as int
        } else {
            limit as int
        },
        forall|k: int|
            0 <= k < rs@.len() ==> is_issue_record(
                #[trigger] rs@[k],
                remotes@[k],
                tenant_id@,
                organization_id@,
                repository_id@,
                now,
            ),
{
    let ghost input = remotes@;
    let mut rest = remotes;
    let mut rs: Vec<Issue> = Vec::new();
    let n = if rest.len() < limit {
        rest.len()
    } else {
        limit
    };
    let mut i: usize = 0;
    while i < n
        invariant
            n <= input.len(),
            i <= n,
            rest@ == input.skip(i as int),
            rs@.len() == i,
            forall|k: int|
                0 <= k < i ==> is_issue_record(
                    #[trigger] rs@[k],
                    input[k],
                    tenant_id@,
                    organization_id@,
                    repository_id@,
                    now,
                ),
        decreases n - i,
    {
        assert(rest@[0] == input[i as int]);
        let remote = rest.remove(0);
        assert(rest@ =~= input.skip(i + 1));
        rs.push(issue_from_remote(remote, tenant_id, organization_id, repository_id, now));
        i = i + 1;
    }
    rs
}

// ── Issue sync ──────────────────────────────────────────────────────────

/// The page of tracked repositories an issue sync reads.
pub const SYNC_REPOSITORY_PAGE: u32 = 1;

/// The size of that page.
pub const SYNC_REPOSITORY_PAGE_SIZE: u32 = 100;

/// The repositories an issue sync covers: those with the requested id, or
/// all of them when none is requested; in order.
pub open spec fn sync_selection(repositories: Seq<Repository>, repository_id: Option<Seq<char>>) -> Seq<
    Repository,
>
    decreases repositories.len(),
{
    if repositories.len() == 0 {
        Seq::empty()
    } else {
        let rest = sync_selection(repositories.drop_last(), repository_id);
        match repository_id {
            Some(id) => if repositories.last().id@ == id {
                rest.push(repositories.last())
            } else {
                rest
            },
            None => rest.push(repositories.last()),
        }
    }
}

/// The repositories an issue sync covers; a sync that covers none is
/// rejected.
pub fn select_sync_repositories(repositories: Vec<Repository>, repository_id: Option<&str>) -> (r:
    Result<Vec<Repository>, ServiceError>)
    ensures
        ({
            let wanted = match repository_id {
                Some(id) => Some(id@),
                None => None,
            };
            let selection = sync_selection(repositories@, wanted);
            &&& r is Ok <==> selection.len() > 0
            &&& r matches Ok(rs) ==> rs@ == selection
            &&& r matches Err(e) ==> e matches ServiceError::Validation(m) && m@
                == "sync issues requires at least one tracked repository"@
        }),
{
    let ghost input = repositories@;
    let ghost wanted = match repository_id {
        Some(id) => Some(id@),
        None => None,
    };
    let mut rest = repositories;
    let mut selected: Vec<Repository> = Vec::new();
    let n = rest.len();
    let mut i: usize = 0;
    while i < n
        invariant
            n == input.len(),
            i <= n,
            rest@ == input.skip(i as int),
            wanted == match repository_id {
                Some(id) => Some(id@),
                None => None::<Seq<char>>,
            },
            selected@ == sync_selection(input.take(i as int), wanted),
        decreases n - i,
    {
        assert(rest@[0] == input[i as int]);
        let repository = rest.remove(0);
        assert(rest@ =~= input.skip(i + 1));
        assert(input.take(i + 1).drop_last() =~= input.take(i as int));
        let keep = match repository_id {
            Some(id) => text_eq(repository.id.as_str(), id),
            None => true,
        };
        if keep {
            selected.push(repository);
        }
        i = i + 1;
    }
    assert(input.take(n as int) =~= input);
    if selected.len() == 0 {
        return Err(validation_error("sync issues requires at least one tracked repository"));
    }
    Ok(selected)
}

/// The running count of records a sync wrote.
pub struct SyncProgress {
    pub synced_count: u64,
}

impl SyncProgress {
    /// A sync that wrote nothing yet.
    pub fn new() -> (p: SyncProgress)
        ensures
            p.synced_count == 0,
    {
        SyncProgress { synced_count: 0 }
    }

    /// Counts `written` more records.
    pub fn record_written(&mut self, written: usize)
        requires
            old(self).synced_count + written <= u64::MAX,
        ensures
            final(self).synced_count == old(self).synced_count + written,
    {
        self.synced_count = self.synced_count + written as u64;
    }

    /// The result of the sync: the provider that served it and the count.
    pub fn finish(self, provider: String) -> (r: SyncResult)
        ensures
            r.provider == provider,
            r.synced_count == self.synced_count,
    {
        SyncResult { provider, synced_count: self.synced_count }
    }
}

// ── Notable catalog ─────────────────────────────────────────────────────

/// The tenant a startup catalog run uses when none is configured.
pub const DEFAULT_CATALOG_TENANT_ID: &'static str = "100001";

/// The organization a startup catalog run uses when none is configured.
pub const DEFAULT_CATALOG_ORGANIZATION_ID: &'static str = "0";

/// The values of the startup switch that turn the catalog run on.
pub open spec fn is_enabling_value(v: Seq<char>) -> bool {
    ||| v == "1"@
    ||| v == "true"@
    ||| v == "TRUE"@
    ||| v == "yes"@
    ||| v == "YES"@
}

/// Whether the startup switch, if set, turns the catalog run on: its value,
/// trimmed, is one of the enabling values.
pub fn catalog_sync_enabled(value: Option<&str>) -> (b: bool)
    ensures
        b == match value {
            Some(v) => is_enabling_value(crate::text::trimmed(v@)),
            None => false,
        },
{
    match value {
        None => false,
        Some(v) => {
            let t = trim(v);
            text_eq(t, "1") || text_eq(t, "true") || text_eq(t, "TRUE") || text_eq(t, "yes")
                || text_eq(t, "YES")
        },
    }
}

/// The configured value, or the default where none is configured.
pub fn configured_or(value: Option<String>, default: &str) -> (r: String)
    ensures
        r@ == match value {
            Some(v) => v@,
            None => default@,
        },
{
    match value {
        Some(v) => v,
        None => String::from_str(default),
    }
}

/// Whether a catalog entry asks for its issues.
pub fn catalog_syncs_issues(entry: &CatalogEntry) -> (b: bool)
    ensures
        b == (entry.sync_issues && entry.max_issues > 0),
{
    entry.sync_issues && entry.max_issues > 0
}

/// The id of a catalog entry's plan.
pub open spec fn catalog_plan_id(owner: Seq<char>, name: Seq<char>) -> Seq<char> {
    "github-plan-catalog-"@ + owner + "-"@ + name
}

/// The id of a checklist entry of a plan.
pub open spec fn plan_item_id(plan_id: Seq<char>, index: nat) -> Seq<char> {
    plan_id + "-item-"@ + decimal(index)
}

/// The title of the checklist entry at `index` of a catalog plan.
pub open spec fn catalog_checklist_title(index: int) -> Seq<char> {
    if index == 0 {
        "Review README and contribution guide"@
    } else if index == 1 {
        "Monitor high-priority open issues"@
    } else {
        "Track release milestones"@
    }
}

/// The number of checklist entries of a catalog plan.
pub const CATALOG_CHECKLIST_LEN: usize = 3;

/// `p` is the plan of the catalog entry for the tenant scope: active,
/// titled as the entry says, tied to the repository record
/// `repository_id`, stamped `now`.
pub open spec fn is_catalog_plan(
    p: Plan,
    entry: CatalogEntry,
    repository_id: Seq<char>,
    tenant_id: Seq<char>,
    organization_id: Seq<char>,
    now: UtcTimestamp,
) -> bool {
    &&& p.id@ == catalog_plan_id(entry.owner@, entry.name@)
    &&& p.tenant_id@ == tenant_id
    &&& p.organization_id@ == organization_id
    &&& p.repository_id matches Some(r) && r@ == repository_id
    &&& p.title == entry.plan_title
    &&& p.status@ == "active"@
    &&& p.created_at == now
    &&& p.updated_at == now
}

/// Law: a catalog plan lies in the scope of the run that wrote it and
/// belongs to the entry's repository: its tenant and organization are the
/// run's, its id is `github-plan-catalog-owner-name`, its repository is the
/// one given, its title is the entry's, it is active and stamped `now`.
pub proof fn lemma_catalog_plan_in_scope(
    p: Plan,
    entry: CatalogEntry,
    repository_id: Seq<char>,
    tenant_id: Seq<char>,
    organization_id: Seq<char>,
    now: UtcTimestamp,
)
    requires
        is_catalog_plan(p, entry, repository_id, tenant_id, organization_id, now),
    ensures
        p.tenant_id@ == tenant_id,
        p.organization_id@ == organization_id,
        p.id@ == "github-plan-catalog-"@ + entry.owner@ + "-"@ + entry.name@,
        p.repository_id matches Some(r) && r@ == repository_id,
        p.title == entry.plan_title,
        p.status@ == "active"@,
        p.created_at == now,
        p.updated_at == now,
{
}

/// The plan a catalog entry gets: active, titled as the entry says, tied to
/// the entry's repository record.
pub fn catalog_plan(
    entry: &CatalogEntry,
    repository_id: &String,
    tenant_id: &str,
    organization_id: &str,
    now: UtcTimestamp,
) -> (p: Plan)
    ensures
        is_catalog_plan(p, *entry, repository_id@, tenant_id@, organization_id@, now),
        p.repository_id == Some(*repository_id),
        p.id@ == "github-plan-catalog-"@ + entry.owner@ + "-"@ + entry.name@,
        p.tenant_id@ == tenant_id@,
        p.organization_id@ == organization_id@,
        p.title == entry.plan_title,
        p.status@ == "active"@,
        p.created_at == now,
        p.updated_at == now,
{
    let mut id = String::from_str("github-plan-catalog-");
    push_text(&mut id, entry.owner.as_str());
    push_text(&mut id, "-");
    push_text(&mut id, entry.name.as_str());
    Plan {
        id,
        tenant_id: String::from_str(tenant_id),
        organization_id: String::from_str(organization_id),
        repository_id: Some(repository_id.clone()),
        title: entry.plan_title.clone(),
        status: String::from_str("active"),
        created_at: now,
        updated_at: now,
    }
}

/// The issue a catalog plan links: the first issue synced for its
/// repository.
pub fn catalog_linked_issue(issues: &Vec<Issue>) -> (r: Option<String>)
    ensures
        r == if issues@.len() > 0 {
            Some(issues@[0].id)
        } else {
            None
        },
{
    if issues.len() > 0 {
        Some(issues[0].id.clone())
    } else {
        None
    }
}

/// `item` is the checklist entry at `index` of the catalog plan `plan_id`.
pub open spec fn is_catalog_checklist_item(
    item: PlanItem,
    plan_id: String,
    index: int,
    linked_issue_id: Option<String>,
    now: UtcTimestamp,
) -> bool {
    &&& item.id@ == plan_item_id(plan_id@, index as nat)
    &&& item.plan_id == plan_id
    &&& item.title@ == catalog_checklist_title(index)
    &&& item.status@ == "pending"@
    &&& item.sort_order == index
    &&& item.issue_id == (if index == 1 {
        linked_issue_id
    } else {
        None
    })
    &&& item.created_at == now
    &&& item.updated_at == now
}

/// The checklist of a catalog plan: three pending entries in order; the
/// second links the plan's issue.
pub fn catalog_checklist(plan_id: &String, linked_issue_id: &Option<String>, now: UtcTimestamp) -> (items:
    Vec<PlanItem>)
    ensures
        items@.len() == CATALOG_CHECKLIST_LEN,
        forall|k: int|
            0 <= k < items@.len() ==> is_catalog_checklist_item(
                #[trigger] items@[k],
                *plan_id,
                k,
                *linked_issue_id,
                now,
            ),
{
    let mut items: Vec<PlanItem> = Vec::new();
    let mut i: usize = 0;
    while i < CATALOG_CHECKLIST_LEN
        invariant
            i <= CATALOG_CHECKLIST_LEN,
            items@.len() == i,
            forall|k: int|
                0 <= k < i ==> is_catalog_checklist_item(
                    #[trigger] items@[k],
                    *plan_id,
                    k,
                    *linked_issue_id,
                    now,
                ),
        decreases CATALOG_CHECKLIST_LEN - i,
    {
        let mut id = concat2(plan_id.as_str(), "-item-");
        push_decimal(&mut id, i as u64);
        let title = if i == 0 {
            String::from_str("Review README and contribution guide")
        } else if i == 1 {
            String::from_str("Monitor high-priority open issues")
        } else {
            String::from_str("Track release milestones")
        };
        let issue_id = if i == 1 {
            copy_opt_string(linked_issue_id)
        } else {
            None
        };
        items.push(
            PlanItem {
                id,
                plan_id: plan_id.clone(),
                title,
                status: String::from_str("pending"),
                sort_order: i as i32,
                issue_id,
                created_at: now,
                updated_at: now,
            },
        );
        i = i + 1;
    }
    items
}

impl CatalogBootstrapResult {
    /// A run that wrote nothing yet.
    pub fn new() -> (r: CatalogBootstrapResult)
        ensures
            r.repositories_synced == 0,
            r.issues_synced == 0,
            r.plans_created == 0,
            r.plan_items_created == 0,
    {
        CatalogBootstrapResult {
            repositories_synced: 0,
            issues_synced: 0,
            plans_created: 0,
            plan_items_created: 0,
        }
    }

    /// Counts one more repository written.
    pub fn record_repository(&mut self)
        requires
            old(self).repositories_synced < u64::MAX,
        ensures
            final(self).repositories_synced == old(self).repositories_synced + 1,
            final(self).issues_synced == old(self).issues_synced,
            final(self).plans_created == old(self).plans_created,
            final(self).plan_items_created == old(self).plan_items_created,
    {
        self.repositories_synced = self.repositories_synced + 1;
    }

    /// Counts one more issue written.
    pub fn record_issue(&mut self)
        requires
            old(self).issues_synced < u64::MAX,
        ensures
            final(self).repositories_synced == old(self).repositories_synced,
            final(self).issues_synced == old(self).issues_synced + 1,
            final(self).plans_created == old(self).plans_created,
            final(self).plan_items_created == old(self).plan_items_created,
    {
        self.issues_synced = self.issues_synced + 1;
    }

    /// Counts one more plan written.
    pub fn record_plan(&mut self)
        requires
            old(self).plans_created < u64::MAX,
        ensures
            final(self).repositories_synced == old(self).repositories_synced,
            final(self).issues_synced == old(self).issues_synced,
            final(self).plans_created == old(self).plans_created + 1,
            final(self).plan_items_created == old(self).plan_items_created,
    {
        self.plans_created = self.plans_created + 1;
    }

    /// Counts one more checklist entry written.
    pub fn record_plan_item(&mut self)
        requires
            old(self).plan_items_created < u64::MAX,
        ensures
            final(self).repositories_synced == old(self).repositories_synced,
            final(self).issues_synced == old(self).issues_synced,
            final(self).plans_created == old(self).plans_created,
            final(self).plan_items_created == old(self).plan_items_created + 1,
    {
        self.plan_items_created = self.plan_items_created + 1;
    }
}

/// Two ids made of the same prefix and two numbers are equal only for equal
/// numbers.
proof fn lemma_prefixed_decimal_injective(prefix: Seq<char>, a: nat, b: nat)
    requires
        prefix + decimal(a) == prefix + decimal(b),
    ensures
        a == b,
{
    let x = prefix + decimal(a);
    let y = prefix + decimal(b);
    assert(x.subrange(prefix.len() as int, x.len() as int) =~= decimal(a));
    assert(y.subrange(prefix.len() as int, y.len() as int) =~= decimal(b));
    lemma_decimal_injective(a, b);
}

/// Law: records of different GitHub repositories, and of different GitHub
/// issues, get different ids, so upserting one never overwrites another.
pub proof fn lemma_record_ids_distinct(a: u64, b: u64)
    requires
        a != b,
    ensures
        repository_record_id(a) != repository_record_id(b),
        issue_record_id(a) != issue_record_id(b),
{
    if repository_record_id(a) == repository_record_id(b) {
        lemma_prefixed_decimal_injective("github-repo-"@, a as nat, b as nat);
    }
    if issue_record_id(a) == issue_record_id(b) {
        lemma_prefixed_decimal_injective("github-issue-"@, a as nat, b as nat);
    }
}

/// Law: the checklist entries of one plan get different ids.
pub proof fn lemma_plan_item_ids_distinct(plan_id: Seq<char>, k: nat, l: nat)
    requires
        k != l,
    ensures
        plan_item_id(plan_id, k) != plan_item_id(plan_id, l),
{
    if plan_item_id(plan_id, k) == plan_item_id(plan_id, l) {
        assert(plan_item_id(plan_id, k) =~= (plan_id + "-item-"@) + decimal(k));
        assert(plan_item_id(plan_id, l) =~= (plan_id + "-item-"@) + decimal(l));
        lemma_prefixed_decimal_injective(plan_id + "-item-"@, k, l);
    }
}

/// Pause between catalog entries, in milliseconds, to spare GitHub's rate
/// limit.
pub const CATALOG_PAUSE_MILLIS: u64 = 300;

/// Whether the catalog run pauses before the entry at `index`: before every
/// entry but the first.
pub fn catalog_pause_before(index: usize) -> (b: bool)
    ensures
        b == (index > 0),
{
    index > 0
}

/// What a catalog run does about an entry's issues.
#[derive(Clone, Copy, Debug, PartialEq, Eq, Structural)]
pub enum CatalogIssueSync {
    /// The entry does not ask for issues.
    NotRequested,
    /// The entry asks, but no GitHub credential is configured.
    ProviderMissing,
    /// Fetch the entry's issues and keep the first `max_issues`.
    Fetch,
}

/// What a catalog run does about an entry's issues, given whether a GitHub
/// credential could be resolved for the scope.
pub fn catalog_issue_sync(entry: &CatalogEntry, provider_available: bool) -> (d: CatalogIssueSync)
    ensures
        d == (if !(entry.sync_issues && entry.max_issues > 0) {
            CatalogIssueSync::NotRequested
        } else if !provider_available {
            CatalogIssueSync::ProviderMissing
        } else {
            CatalogIssueSync::Fetch
        }),
{
    if !catalog_syncs_issues(entry) {
        CatalogIssueSync::NotRequested
    } else if !provider_available {
        CatalogIssueSync::ProviderMissing
    } else {
        CatalogIssueSync::Fetch
    }
}

} // verus!
