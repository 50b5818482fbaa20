//! The notable catalog run as a state machine. Each step takes what the last
//! action brought back and says what to do next; the driver performs the
//! actions (pauses, reads from GitHub, writes to the store) and reports each
//! outcome. Per entry the run pauses (but before the first), reads the
//! repository (skipping the entry where that read fails), writes its record,
//! reads its issues where the entry asks for them and a credential is
//! available, then writes the issues, the plan and its checklist.

use vstd::prelude::*;

use crate::domain::{CatalogBootstrapResult, Issue, Plan, PlanItem, Repository, UtcTimestamp};
use crate::records::{
    catalog_checklist, catalog_issue_sync, catalog_linked_issue, catalog_pause_before,
    catalog_plan, is_catalog_checklist_item, is_catalog_plan, is_issue_record,
    is_repository_record, issues_from_remote, repository_from_remote, CatalogEntry,
    CatalogIssueSync, RemoteIssue, RemoteRepository, CATALOG_CHECKLIST_LEN,
    CATALOG_PAUSE_MILLIS,
};

verus! {

/// What a run is set up with; it stays as it is while the run goes on.
pub struct CatalogSetup {
    pub tenant_id: String,
    pub organization_id: String,
    pub now: UtcTimestamp,
    /// Whether a GitHub credential could be resolved for the scope.
    pub provider_available: bool,
    pub entries: Vec<CatalogEntry>,
}

/// Where a run stands on its current entry.
pub enum CatalogStage {
    /// Waiting out the pause before the entry.
    Pausing,
    /// Waiting for the entry's repository from the public API.
    FetchingRepository,
    /// Waiting for the repository record to be written.
    WritingRepository { repository_id: String },
    /// Waiting for the entry's issues from GitHub.
    FetchingIssues { repository_id: String },
    /// Waiting for the entry's issues, plan and checklist to be written.
    WritingRest { issue_count: usize },
    /// Every entry is done.
    Finished,
}

/// A catalog run: its setup, the entry it is on, where it stands there, and
/// the counts of what it wrote.
pub struct CatalogRun {
    pub setup: CatalogSetup,
    pub index: usize,
    pub stage: CatalogStage,
    pub result: CatalogBootstrapResult,
}

/// A record the run writes.
pub enum CatalogWrite {
    Repository(Repository),
    Issue(Issue),
    Plan(Plan),
    PlanItem(PlanItem),
}

/// What the driver does next.
pub enum CatalogAction {
    /// Waits before the next request, to spare GitHub's rate limit.
    Pause { millis: u64 },
    /// Reads `owner/name` from the public API.
    FetchRepository { owner: String, name: String },
    /// Reads the issues of `owner/name` with the scope's credential.
    FetchIssues { owner: String, name: String },
    /// Writes the records in order; a failed write ends the run with its
    /// error.
    Write(Vec<CatalogWrite>),
    /// The run is over with these counts.
    Finish(CatalogBootstrapResult),
}

/// What the driver reports back.
pub enum CatalogEvent {
    /// The pause is over.
    Paused,
    /// The repository as read, or `None` where the read failed.
    RepositoryFetched(Option<RemoteRepository>),
    /// The issues as read, or `None` where the read failed.
    IssuesFetched(Option<Vec<RemoteIssue>>),
    /// Every record of the last write is stored.
    Written,
}

/// The counts `r` with the given numbers of records added.
pub open spec fn counted(
    r: CatalogBootstrapResult,
    repositories: int,
    issues: int,
    plans: int,
    items: int,
) -> CatalogBootstrapResult {
    CatalogBootstrapResult {
        repositories_synced: (r.repositories_synced + repositories) as u64,
        issues_synced: (r.issues_synced + issues) as u64,
        plans_created: (r.plans_created + plans) as u64,
        plan_items_created: (r.plan_items_created + items) as u64,
    }
}

/// `action` reads the repository of `entry`.
pub open spec fn fetches_repository(action: CatalogAction, entry: CatalogEntry) -> bool {
    action matches CatalogAction::FetchRepository { owner, name } && owner == entry.owner && name
        == entry.name
}

/// `action` reads the issues of `entry`.
pub open spec fn fetches_issues(action: CatalogAction, entry: CatalogEntry) -> bool {
    action matches CatalogAction::FetchIssues { owner, name } && owner == entry.owner && name
        == entry.name
}

/// `ws` writes the record of `remote` alone, and `stage` waits for it.
pub open spec fn writes_repository(
    ws: Seq<CatalogWrite>,
    remote: RemoteRepository,
    setup: CatalogSetup,
    stage: CatalogStage,
) -> bool {
    &&& ws.len() == 1
    &&& ws[0] matches CatalogWrite::Repository(r) && is_repository_record(
        r,
        remote,
        setup.tenant_id@,
        setup.organization_id@,
        setup.now,
    ) && stage == CatalogStage::WritingRepository { repository_id: r.id }
}

/// The number of issues an entry keeps of those read.
pub open spec fn kept_issues(entry: CatalogEntry, remotes: Seq<RemoteIssue>) -> int {
    if remotes.len() < entry.max_issues {
        remotes.len() as int
    } else {
        entry.max_issues as int
    }
}

/// `ws` are the records written for `entry` after its repository record
/// `repository_id`: the records of the first issues kept, in order; the
/// entry's plan; its checklist, whose second entry links the first issue.
pub open spec fn is_entry_rest(
    ws: Seq<CatalogWrite>,
    entry: CatalogEntry,
    repository_id: Seq<char>,
    remotes: Seq<RemoteIssue>,
    tenant_id: Seq<char>,
    organization_id: Seq<char>,
    now: UtcTimestamp,
) -> bool {
    let k = kept_issues(entry, remotes);
    &&& ws.len() == k + 1 + CATALOG_CHECKLIST_LEN
    &&& forall|j: int|
        0 <= j < k ==> (#[trigger] ws[j] matches CatalogWrite::Issue(i) && is_issue_record(
            i,
            remotes[j],
            tenant_id,
            organization_id,
            repository_id,
            now,
        ))
    &&& ws[k] matches CatalogWrite::Plan(p) && is_catalog_plan(
        p,
        entry,
        repository_id,
        tenant_id,
        organization_id,
        now,
    )
    &&& forall|m: int|
        0 <= m < CATALOG_CHECKLIST_LEN ==> (#[trigger] ws[k + 1 + m] matches CatalogWrite::PlanItem(
            it,
        ) && is_catalog_checklist_item(
            it,
            ws[k]->Plan_0.id,
            m,
            if k > 0 {
                Some(ws[0]->Issue_0.id)
            } else {
                None
            },
            now,
        ))
}

impl CatalogRun {
    /// The run's fields agree: it is on an entry of the catalog, or past the
    /// last one exactly when it is finished.
    pub open spec fn wf(&self) -> bool {
        &&& self.index <= self.setup.entries@.len()
        &&& (self.stage is Finished <==> self.index == self.setup.entries@.len())
    }

    /// The event the run is waiting for in its stage.
    pub open spec fn accepts(&self, event: CatalogEvent) -> bool {
        match self.stage {
            CatalogStage::Pausing => event is Paused,
            CatalogStage::FetchingRepository => event is RepositoryFetched,
            CatalogStage::WritingRepository { .. } => event is Written,
            CatalogStage::FetchingIssues { .. } => event is IssuesFetched,
            CatalogStage::WritingRest { .. } => event is Written,
            CatalogStage::Finished => false,
        }
    }

    /// The counts can take the records of the write the run waits for.
    pub open spec fn has_room_spec(&self) -> bool {
        match self.stage {
            CatalogStage::WritingRepository { .. } => self.result.repositories_synced < u64::MAX,
            CatalogStage::WritingRest { issue_count } => {
                &&& self.result.issues_synced + issue_count <= u64::MAX
                &&& self.result.plans_created < u64::MAX
                &&& self.result.plan_items_created + CATALOG_CHECKLIST_LEN <= u64::MAX
            },
            _ => true,
        }
    }

    /// The steps the run can still take at most; each step lowers it.
    pub open spec fn remaining(&self) -> int {
        (self.setup.entries@.len() - self.index) * 6 + match self.stage {
            CatalogStage::Pausing => 5int,
            CatalogStage::FetchingRepository => 4int,
            CatalogStage::WritingRepository { .. } => 3int,
            CatalogStage::FetchingIssues { .. } => 2int,
            CatalogStage::WritingRest { .. } => 1int,
            CatalogStage::Finished => 0int,
        }
    }

    /// `run` has just begun the entry at `j` with the counts `result`:
    /// finished with those counts past the last entry, else pausing before
    /// every entry but the first, else reading the first entry's repository.
    pub open spec fn begins_entry(
        run: CatalogRun,
        action: CatalogAction,
        setup: CatalogSetup,
        j: int,
        result: CatalogBootstrapResult,
    ) -> bool {
        &&& run.setup == setup
        &&& run.index == j
        &&& run.result == result
        &&& if j >= setup.entries@.len() {
            &&& run.stage is Finished
            &&& action == CatalogAction::Finish(result)
        } else if j > 0 {
            &&& run.stage is Pausing
            &&& action == CatalogAction::Pause { millis: CATALOG_PAUSE_MILLIS }
        } else {
            &&& run.stage is FetchingRepository
            &&& fetches_repository(action, setup.entries@[j])
        }
    }

    /// `run` writes the rest of its current entry after the repository
    /// record `repository_id`, keeping issues of `remotes`.
    pub open spec fn writes_rest(
        run: CatalogRun,
        action: CatalogAction,
        setup: CatalogSetup,
        index: int,
        repository_id: Seq<char>,
        remotes: Seq<RemoteIssue>,
        result: CatalogBootstrapResult,
    ) -> bool {
        let entry = setup.entries@[index];
        &&& run.setup == setup
        &&& run.index == index
        &&& run.result == result
        &&& run.stage matches CatalogStage::WritingRest { issue_count } && issue_count == kept_issues(
            entry,
            remotes,
        )
        &&& action matches CatalogAction::Write(ws) && is_entry_rest(
            ws@,
            entry,
            repository_id,
            remotes,
            setup.tenant_id@,
            setup.organization_id@,
            setup.now,
        )
    }

    /// Starts a run on its first entry with nothing counted.
    pub fn start(setup: CatalogSetup) -> (r: (CatalogRun, CatalogAction))
        ensures
            r.0.wf(),
            CatalogRun::begins_entry(r.0, r.1, setup, 0, counted(r.0.result, 0, 0, 0, 0)),
            r.0.result.repositories_synced == 0,
            r.0.result.issues_synced == 0,
            r.0.result.plans_created == 0,
            r.0.result.plan_items_created == 0,
    {
        let mut run = CatalogRun {
            setup,
            index: 0,
            stage: CatalogStage::Finished,
            result: CatalogBootstrapResult::new(),
        };
        let action = run.begin_entry(0);
        (run, action)
    }

    /// Moves to the entry at `j` and says what to do there.
    fn begin_entry(&mut self, j: usize) -> (action: CatalogAction)
        requires
            j <= old(self).setup.entries@.len(),
        ensures
            final(self).wf(),
            CatalogRun::begins_entry(*final(self), action, old(self).setup, j as int, old(self).result),
    {
        self.index = j;
        if j >= self.setup.entries.len() {
            self.stage = CatalogStage::Finished;
            CatalogAction::Finish(
                CatalogBootstrapResult {
                    repositories_synced: self.result.repositories_synced,
                    issues_synced: self.result.issues_synced,
                    plans_created: self.result.plans_created,
                    plan_items_created: self.result.plan_items_created,
                },
            )
        } else if catalog_pause_before(j) {
            self.stage = CatalogStage::Pausing;
            CatalogAction::Pause { millis: CATALOG_PAUSE_MILLIS }
        } else {
            self.stage = CatalogStage::FetchingRepository;
            self.fetch_repository_action()
        }
    }

    /// Reads the current entry's repository.
    fn fetch_repository_action(&self) -> (action: CatalogAction)
        requires
            self.index < self.setup.entries@.len(),
        ensures
            fetches_repository(action, self.setup.entries@[self.index as int]),
    {
        let entry = &self.setup.entries[self.index];
        CatalogAction::FetchRepository { owner: entry.owner.clone(), name: entry.name.clone() }
    }

    /// Writes the current entry's issues (the first kept of `remotes`), its
    /// plan and its checklist.
    fn write_rest(&mut self, repository_id: String, remotes: Vec<RemoteIssue>) -> (action:
        CatalogAction)
        requires
            old(self).index < old(self).setup.entries@.len(),
        ensures
            final(self).wf(),
            CatalogRun::writes_rest(
                *final(self),
                action,
                old(self).setup,
                old(self).index as int,
                repository_id@,
                remotes@,
                old(self).result,
            ),
    {
        let ghost remote_seq = remotes@;
        let entry = &self.setup.entries[self.index];
        let tenant_id = self.setup.tenant_id.as_str();
        let organization_id = self.setup.organization_id.as_str();
        let now = self.setup.now;
        let issues = issues_from_remote(
            remotes,
            entry.max_issues as usize,
            tenant_id,
            organization_id,
            repository_id.as_str(),
            now,
        );
        let linked = catalog_linked_issue(&issues);
        let plan = catalog_plan(entry, &repository_id, tenant_id, organization_id, now);
        let items = catalog_checklist(&plan.id, &linked, now);
        let ghost issue_seq = issues@;
        let ghost item_seq = items@;
        let ghost plan_value = plan;
        let issue_count = issues.len();
        let mut writes: Vec<CatalogWrite> = Vec::new();
        let mut rest_issues = issues;
        let mut i: usize = 0;
        while i < issue_count
            invariant
                issue_count == issue_seq.len(),
                i <= issue_count,
                rest_issues@ == issue_seq.skip(i as int),
                writes@.len() == i,
                forall|j: int|
                    0 <= j < i ==> (#[trigger] writes@[j] matches CatalogWrite::Issue(x) && x
                        == issue_seq[j]),
            decreases issue_count - i,
        {
            assert(rest_issues@[0] == issue_seq[i as int]);
            let issue = rest_issues.remove(0);
            assert(rest_issues@ =~= issue_seq.skip(i + 1));
            writes.push(CatalogWrite::Issue(issue));
            i = i + 1;
        }
        writes.push(CatalogWrite::Plan(plan));
        let mut rest_items = items;
        let mut m: usize = 0;
        while m < CATALOG_CHECKLIST_LEN
            invariant
                item_seq.len() == CATALOG_CHECKLIST_LEN,
                m <= CATALOG_CHECKLIST_LEN,
                rest_items@ == item_seq.skip(m as int),
                writes@.len() == issue_count + 1 + m,
                writes@[issue_count as int] == CatalogWrite::Plan(plan_value),
                forall|j: int|
                    0 <= j < issue_count ==> (#[trigger] writes@[j] matches CatalogWrite::Issue(x)
                        && x == issue_seq[j]),
                forall|j: int|
                    0 <= j < m ==> (#[trigger] writes@[issue_count + 1 + j] matches CatalogWrite::PlanItem(
                        x,
                    ) && x == item_seq[j]),
            decreases CATALOG_CHECKLIST_LEN - m,
        {
            assert(rest_items@[0] == item_seq[m as int]);
            let item = rest_items.remove(0);
            assert(rest_items@ =~= item_seq.skip(m + 1));
            writes.push(CatalogWrite::PlanItem(item));
            m = m + 1;
        }
        proof {
            let ws = writes@;
            let k = issue_count as int;
            assert(k == kept_issues(*entry, remote_seq));
            assert forall|j: int| 0 <= j < k implies (#[trigger] ws[j] matches CatalogWrite::Issue(
                x,
            ) && is_issue_record(
                x,
                remote_seq[j],
                tenant_id@,
                organization_id@,
                repository_id@,
                now,
            )) by {
                assert(ws[j] matches CatalogWrite::Issue(x) && x == issue_seq[j]);
            }
            assert forall|mm: int| 0 <= mm < CATALOG_CHECKLIST_LEN implies (#[trigger] ws[k + 1
                + mm] matches CatalogWrite::PlanItem(it) && is_catalog_checklist_item(
                it,
                ws[k]->Plan_0.id,
                mm,
                if k > 0 {
                    Some(ws[0]->Issue_0.id)
                } else {
                    None
                },
                now,
            )) by {
                assert(ws[k + 1 + mm] matches CatalogWrite::PlanItem(x) && x == item_seq[mm]);
                if k > 0 {
                    assert(ws[0] matches CatalogWrite::Issue(x) && x == issue_seq[0]);
                }
            }
        }
        self.stage = CatalogStage::WritingRest { issue_count };
        CatalogAction::Write(writes)
    }

    /// Whether the run waits for `event`.
    pub fn accepts_event(&self, event: &CatalogEvent) -> (b: bool)
        ensures
            b == self.accepts(*event),
    {
        match (&self.stage, event) {
            (CatalogStage::Pausing, CatalogEvent::Paused) => true,
            (CatalogStage::FetchingRepository, CatalogEvent::RepositoryFetched(_)) => true,
            (CatalogStage::WritingRepository { .. }, CatalogEvent::Written) => true,
            (CatalogStage::FetchingIssues { .. }, CatalogEvent::IssuesFetched(_)) => true,
            (CatalogStage::WritingRest { .. }, CatalogEvent::Written) => true,
            _ => false,
        }
    }

    /// Whether the counts can take the records of the write the run waits
    /// for.
    pub fn has_room(&self) -> (b: bool)
        ensures
            b == self.has_room_spec(),
    {
        match self.stage {
            CatalogStage::WritingRepository { .. } => self.result.repositories_synced < u64::MAX,
            CatalogStage::WritingRest { issue_count } => {
                (issue_count as u64) <= u64::MAX - self.result.issues_synced
                    && self.result.plans_created < u64::MAX && self.result.plan_items_created
                    <= u64::MAX - 3
            },
            _ => true,
        }
    }

    /// Takes the outcome of the last action and says what to do next.
    pub fn advance(&mut self, event: CatalogEvent) -> (action: CatalogAction)
        requires
            old(self).wf(),
            old(self).accepts(event),
            event is Written ==> old(self).has_room_spec(),
        ensures
            final(self).wf(),
            final(self).remaining() < old(self).remaining(),
            ({
                let setup = old(self).setup;
                let index = old(self).index as int;
                let result = old(self).result;
                let entry = setup.entries@[index];
                match old(self).stage {
                    CatalogStage::Pausing => {
                        &&& final(self).setup == setup
                        &&& final(self).index == index
                        &&& final(self).result == result
                        &&& final(self).stage is FetchingRepository
                        &&& fetches_repository(action, entry)
                    },
                    CatalogStage::FetchingRepository => match event {
                        CatalogEvent::RepositoryFetched(Some(remote)) => {
                            &&& final(self).setup == setup
                            &&& final(self).index == index
                            &&& final(self).result == result
                            &&& action matches CatalogAction::Write(ws) && writes_repository(
                                ws@,
                                remote,
                                setup,
                                final(self).stage,
                            )
                        },
                        _ => CatalogRun::begins_entry(
                            *final(self),
                            action,
                            setup,
                            index + 1,
                            result,
                        ),
                    },
                    CatalogStage::WritingRepository { repository_id } => {
                        let after = counted(result, 1, 0, 0, 0);
                        if entry.sync_issues && entry.max_issues > 0 && setup.provider_available {
                            &&& final(self).setup == setup
                            &&& final(self).index == index
                            &&& final(self).result == after
                            &&& final(self).stage == CatalogStage::FetchingIssues {
                                repository_id,
                            }
                            &&& fetches_issues(action, entry)
                        } else {
                            CatalogRun::writes_rest(
                                *final(self),
                                action,
                                setup,
                                index,
                                repository_id@,
                                Seq::empty(),
                                after,
                            )
                        }
                    },
                    CatalogStage::FetchingIssues { repository_id } => CatalogRun::writes_rest(
                        *final(self),
                        action,
                        setup,
                        index,
                        repository_id@,
                        match event {
                            CatalogEvent::IssuesFetched(Some(remotes)) => remotes@,
                            _ => Seq::empty(),
                        },
                        result,
                    ),
                    CatalogStage::WritingRest { issue_count } => CatalogRun::begins_entry(
                        *final(self),
                        action,
                        setup,
                        index + 1,
                        counted(result, 0, issue_count as int, 1, CATALOG_CHECKLIST_LEN as int),
                    ),
                    CatalogStage::Finished => false,
                }
            }),
    {
        let entry_count = self.setup.entries.len();
        let mut stage = CatalogStage::Finished;
        std::mem::swap(&mut stage, &mut self.stage);
        match stage {
            CatalogStage::Pausing => {
                self.stage = CatalogStage::FetchingRepository;
                self.fetch_repository_action()
            },
            CatalogStage::FetchingRepository => match event {
                CatalogEvent::RepositoryFetched(Some(remote)) => {
                    let repository = repository_from_remote(
                        remote,
                        self.setup.tenant_id.as_str(),
                        self.setup.organization_id.as_str(),
                        self.setup.now,
                    );
                    self.stage = CatalogStage::WritingRepository {
                        repository_id: repository.id.clone(),
                    };
                    let mut writes: Vec<CatalogWrite> = Vec::new();
                    writes.push(CatalogWrite::Repository(repository));
                    CatalogAction::Write(writes)
                },
                _ => {
                    assert(self.index < entry_count);
                    let next = self.index + 1;
                    self.begin_entry(next)
                },
            },
            CatalogStage::WritingRepository { repository_id } => {
                self.result.record_repository();
                let provider_available = self.setup.provider_available;
                let decision = catalog_issue_sync(
                    &self.setup.entries[self.index],
                    provider_available,
                );
                match decision {
                    CatalogIssueSync::Fetch => {
                        let entry = &self.setup.entries[self.index];
                        let action = CatalogAction::FetchIssues {
                            owner: entry.owner.clone(),
                            name: entry.name.clone(),
                        };
                        self.stage = CatalogStage::FetchingIssues { repository_id };
                        action
                    },
                    _ => self.write_rest(repository_id, Vec::new()),
                }
            },
            CatalogStage::FetchingIssues { repository_id } => {
                let remotes = match event {
                    CatalogEvent::IssuesFetched(Some(remotes)) => remotes,
                    _ => Vec::new(),
                };
                self.write_rest(repository_id, remotes)
            },
            CatalogStage::WritingRest { issue_count } => {
                self.result.issues_synced = self.result.issues_synced + issue_count as u64;
                self.result.plans_created = self.result.plans_created + 1;
                self.result.plan_items_created = self.result.plan_items_created + 3;
                assert(self.index < entry_count);
                let next = self.index + 1;
                self.begin_entry(next)
            },
            CatalogStage::Finished => CatalogAction::Finish(CatalogBootstrapResult::new()),
        }
    }
}

/// Law: a run ends. The steps it can still take are never negative and are
/// none exactly when it is finished; since every step lowers them (see
/// `advance`), a driver that keeps stepping reaches the `Finish` action.
pub proof fn lemma_catalog_run_ends(run: CatalogRun)
    requires
        run.wf(),
    ensures
        run.remaining() >= 0,
        run.remaining() == 0 <==> run.stage is Finished,
{
}

/// Law: every record a catalog run writes for an entry, after its
/// repository, lies in the run's scope: each issue is in the run's tenant
/// and organization and in the entry's repository, the plan is in the run's
/// tenant and organization, and each checklist entry belongs to that plan.
/// Nothing else is written.
pub proof fn lemma_entry_rest_in_scope(
    ws: Seq<CatalogWrite>,
    entry: CatalogEntry,
    repository_id: Seq<char>,
    remotes: Seq<RemoteIssue>,
    tenant_id: Seq<char>,
    organization_id: Seq<char>,
    now: UtcTimestamp,
)
    requires
        is_entry_rest(ws, entry, repository_id, remotes, tenant_id, organization_id, now),
    ensures
        forall|j: int|
            0 <= j < ws.len() ==> match #[trigger] ws[j] {
                CatalogWrite::Issue(i) => i.tenant_id@ == tenant_id && i.organization_id@
                    == organization_id && i.repository_id@ == repository_id,
                CatalogWrite::Plan(p) => p.tenant_id@ == tenant_id && p.organization_id@
                    == organization_id,
                CatalogWrite::PlanItem(it) => it.plan_id == ws[kept_issues(
                    entry,
                    remotes,
                )]->Plan_0.id,
                CatalogWrite::Repository(_) => false,
            },
{
    let k = kept_issues(entry, remotes);
    assert forall|j: int| 0 <= j < ws.len() implies match #[trigger] ws[j] {
        CatalogWrite::Issue(i) => i.tenant_id@ == tenant_id && i.organization_id@
            == organization_id && i.repository_id@ == repository_id,
        CatalogWrite::Plan(p) => p.tenant_id@ == tenant_id && p.organization_id@
            == organization_id,
        CatalogWrite::PlanItem(it) => it.plan_id == ws[k]->Plan_0.id,
        CatalogWrite::Repository(_) => false,
    } by {
        if j < k {
        } else if j == k {
        } else {
            let m = j - k - 1;
            assert(ws[k + 1 + m] == ws[j]);
        }
    }
}

/// Law: the repository record a catalog run writes lies in the run's
/// scope and is the record of the repository GitHub reported.
pub proof fn lemma_repository_write_in_scope(
    ws: Seq<CatalogWrite>,
    remote: RemoteRepository,
    setup: CatalogSetup,
    stage: CatalogStage,
)
    requires
        writes_repository(ws, remote, setup, stage),
    ensures
        ws.len() == 1,
        ws[0] matches CatalogWrite::Repository(r) && r.tenant_id@ == setup.tenant_id@
            && r.organization_id@ == setup.organization_id@ && r.full_name == remote.full_name
            && r.description == remote.description,
{
}

} // verus!
