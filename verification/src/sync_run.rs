//! The repository and issue syncs as a state machine. Each step takes the
//! outcome of the last action and says what to do next; the driver performs
//! the actions (reads from GitHub, writes to the store) and reports each
//! outcome. A sync writes the records of what GitHub reports, repository by
//! repository, counts each record written, stops at the first failure with
//! its error, and marks the account synced once, after the last write.

use vstd::prelude::*;

use crate::domain::{Issue, Repository, SyncResult, UtcTimestamp};
use crate::error::ServiceError;
use crate::records::{
    is_issue_record, is_repository_record, issues_from_remote, repositories_from_remote,
    select_sync_repositories, sync_selection, RemoteIssue, RemoteRepository,
};
use crate::rules::{invalid_full_name_message, is_owner_repo, split_at_first_slash, split_full_name};

verus! {

/// What a sync is set up with; it stays as it is while the sync goes on.
pub struct SyncSetup {
    pub tenant_id: String,
    pub organization_id: String,
    pub now: UtcTimestamp,
    /// The provider key the sync reports.
    pub provider: String,
}

/// Where a sync stands.
pub enum SyncStage {
    /// Waiting for the issues of the repository at `index`.
    Fetching { index: usize },
    /// Waiting for `count` records to be written; then the repository at
    /// `next` comes.
    Writing { count: usize, next: usize },
    /// Waiting for the account to be marked synced.
    Touching,
    /// The sync is over.
    Finished,
}

/// A sync: its setup, the repositories whose issues it reads (none for a
/// repository sync), where it stands, and the count of records written.
pub struct SyncRun {
    pub setup: SyncSetup,
    pub repositories: Vec<Repository>,
    pub stage: SyncStage,
    pub synced_count: u64,
}

/// What the driver does next.
pub enum SyncAction {
    /// Reads the issues of `owner/repo`.
    FetchIssues { owner: String, repo: String },
    /// Writes the repository records in order.
    WriteRepositories(Vec<Repository>),
    /// Writes the issue records in order.
    WriteIssues(Vec<Issue>),
    /// Marks the scope's account synced now.
    Touch,
    /// The sync succeeded.
    Finish(SyncResult),
    /// The sync failed with this error.
    Fail(ServiceError),
}

/// What the driver reports back.
pub enum SyncEvent {
    /// The issues as read.
    IssuesFetched(Vec<RemoteIssue>),
    /// The read failed with this message.
    FetchFailed(String),
    /// Every record of the last write is stored.
    Written,
    /// A write failed with this error.
    WriteFailed(ServiceError),
    /// The account is marked synced.
    Touched,
    /// Marking the account failed with this error.
    TouchFailed(ServiceError),
}

/// `is` are the records of `remotes`, in order, in the repository
/// `repository_id`.
pub open spec fn are_issue_records(
    is: Seq<Issue>,
    remotes: Seq<RemoteIssue>,
    setup: SyncSetup,
    repository_id: Seq<char>,
) -> bool {
    &&& is.len() == remotes.len()
    &&& forall|k: int|
        0 <= k < is.len() ==> is_issue_record(
            #[trigger] is[k],
            remotes[k],
            setup.tenant_id@,
            setup.organization_id@,
            repository_id,
            setup.now,
        )
}

/// `rs` are the records of `remotes`, in order.
pub open spec fn are_repository_records(
    rs: Seq<Repository>,
    remotes: Seq<RemoteRepository>,
    setup: SyncSetup,
) -> bool {
    &&& rs.len() == remotes.len()
    &&& forall|k: int|
        0 <= k < rs.len() ==> is_repository_record(
            #[trigger] rs[k],
            remotes[k],
            setup.tenant_id@,
            setup.organization_id@,
            setup.now,
        )
}

impl SyncRun {
    /// The sync's fields agree: what it reads or writes next is within its
    /// repositories.
    pub open spec fn wf(&self) -> bool {
        match self.stage {
            SyncStage::Fetching { index } => index < self.repositories@.len(),
            SyncStage::Writing { next, .. } => next <= self.repositories@.len(),
            _ => true,
        }
    }

    /// The event the sync waits for in its stage.
    pub open spec fn accepts(&self, event: SyncEvent) -> bool {
        match self.stage {
            SyncStage::Fetching { .. } => event is IssuesFetched || event is FetchFailed,
            SyncStage::Writing { .. } => event is Written || event is WriteFailed,
            SyncStage::Touching => event is Touched || event is TouchFailed,
            SyncStage::Finished => false,
        }
    }

    /// The count can take the records of the write the sync waits for.
    pub open spec fn has_room_spec(&self) -> bool {
        match self.stage {
            SyncStage::Writing { count, .. } => self.synced_count + count <= u64::MAX,
            _ => true,
        }
    }

    /// The steps the sync can still take at most; each step lowers it.
    pub open spec fn remaining(&self) -> int {
        match self.stage {
            SyncStage::Fetching { index } => (self.repositories@.len() - index) * 2 + 1,
            SyncStage::Writing { next, .. } => (self.repositories@.len() - next) * 2 + 2,
            SyncStage::Touching => 1,
            SyncStage::Finished => 0,
        }
    }

    /// `run` has reached the repository at `j` with `synced` records
    /// written: past the last one it marks the account; else it reads the
    /// repository's issues, or fails where its full name is not
    /// `owner/repo`.
    pub open spec fn begins_repository(
        run: SyncRun,
        action: SyncAction,
        setup: SyncSetup,
        repositories: Seq<Repository>,
        j: int,
        synced: u64,
    ) -> bool {
        &&& run.setup == setup
        &&& run.repositories@ == repositories
        &&& run.synced_count == synced
        &&& if j >= repositories.len() {
            &&& run.stage is Touching
            &&& action is Touch
        } else if is_owner_repo(repositories[j].full_name@) {
            &&& run.stage == SyncStage::Fetching { index: j as usize }
            &&& action matches SyncAction::FetchIssues { owner, repo } && split_at_first_slash(
                repositories[j].full_name@,
            ) == Some((owner@, repo@))
        } else {
            &&& run.stage is Finished
            &&& action matches SyncAction::Fail(ServiceError::Validation(m)) && m@
                == invalid_full_name_message(repositories[j].full_name@)
        }
    }

    /// `run` has failed with `error`.
    pub open spec fn fails_with(run: SyncRun, action: SyncAction, error: ServiceError) -> bool {
        &&& run.stage is Finished
        &&& action == SyncAction::Fail(error)
    }

    /// Starts a repository sync: writes the records of the repositories
    /// GitHub reported, then marks the account.
    pub fn start_repository_sync(remotes: Vec<RemoteRepository>, setup: SyncSetup) -> (r: (SyncRun, SyncAction))
        ensures
            r.0.wf(),
            r.0.setup == setup,
            r.0.repositories@.len() == 0,
            r.0.synced_count == 0,
            r.0.stage == (SyncStage::Writing { count: remotes@.len() as usize, next: 0 }),
            r.1 matches SyncAction::WriteRepositories(rs) && are_repository_records(
                rs@,
                remotes@,
                setup,
            ),
    {
        let ghost remote_seq = remotes@;
        let records = repositories_from_remote(
            remotes,
            setup.tenant_id.as_str(),
            setup.organization_id.as_str(),
            setup.now,
        );
        let count = records.len();
        let run = SyncRun {
            setup,
            repositories: Vec::new(),
            stage: SyncStage::Writing { count, next: 0 },
            synced_count: 0,
        };
        (run, SyncAction::WriteRepositories(records))
    }

    /// Starts an issue sync over the listed repositories: those with the
    /// requested id, or all when none is requested. A sync that covers none
    /// fails.
    pub fn start_issue_sync(
        listed: Vec<Repository>,
        repository_id: Option<&str>,
        setup: SyncSetup,
    ) -> (r: (SyncRun, SyncAction))
        ensures
            r.0.wf(),
            ({
                let wanted = match repository_id {
                    Some(id) => Some(id@),
                    None => None,
                };
                let selection = sync_selection(listed@, wanted);
                if selection.len() > 0 {
                    SyncRun::begins_repository(r.0, r.1, setup, selection, 0, 0)
                } else {
                    &&& r.0.setup == setup
                    &&& SyncRun::fails_with(r.0, r.1, r.1->Fail_0)
                    &&& r.1 matches SyncAction::Fail(ServiceError::Validation(m)) && m@
                        == "sync issues requires at least one tracked repository"@
                }
            }),
    {
        match select_sync_repositories(listed, repository_id) {
            Ok(repositories) => {
                let mut run = SyncRun {
                    setup,
                    repositories,
                    stage: SyncStage::Finished,
                    synced_count: 0,
                };
                let action = run.begin_repository(0);
                (run, action)
            },
            Err(e) => {
                let run = SyncRun {
                    setup,
                    repositories: Vec::new(),
                    stage: SyncStage::Finished,
                    synced_count: 0,
                };
                (run, SyncAction::Fail(e))
            },
        }
    }

    /// Moves to the repository at `j` and says what to do there.
    fn begin_repository(&mut self, j: usize) -> (action: SyncAction)
        requires
            j <= old(self).repositories@.len(),
        ensures
            final(self).wf(),
            SyncRun::begins_repository(
                *final(self),
                action,
                old(self).setup,
                old(self).repositories@,
                j as int,
                old(self).synced_count,
            ),
    {
        if j >= self.repositories.len() {
            self.stage = SyncStage::Touching;
            return SyncAction::Touch;
        }
        let parts = match split_full_name(self.repositories[j].full_name.as_str()) {
            Ok((owner, repo)) => Ok((String::from_str(owner), String::from_str(repo))),
            Err(e) => Err(e),
        };
        match parts {
            Ok((owner, repo)) => {
                self.stage = SyncStage::Fetching { index: j };
                SyncAction::FetchIssues { owner, repo }
            },
            Err(e) => {
                self.stage = SyncStage::Finished;
                SyncAction::Fail(e)
            },
        }
    }

    /// Whether the sync waits for `event`.
    pub fn accepts_event(&self, event: &SyncEvent) -> (b: bool)
        ensures
            b == self.accepts(*event),
    {
        match (&self.stage, event) {
            (SyncStage::Fetching { .. }, SyncEvent::IssuesFetched(_)) => true,
            (SyncStage::Fetching { .. }, SyncEvent::FetchFailed(_)) => true,
            (SyncStage::Writing { .. }, SyncEvent::Written) => true,
            (SyncStage::Writing { .. }, SyncEvent::WriteFailed(_)) => true,
            (SyncStage::Touching, SyncEvent::Touched) => true,
            (SyncStage::Touching, SyncEvent::TouchFailed(_)) => true,
            _ => false,
        }
    }

    /// Whether the count can take the records of the write the sync waits
    /// for.
    pub fn has_room(&self) -> (b: bool)
        ensures
            b == self.has_room_spec(),
    {
        match self.stage {
            SyncStage::Writing { count, .. } => (count as u64) <= u64::MAX - self.synced_count,
            _ => true,
        }
    }

    /// Takes the outcome of the last action and says what to do next.
    pub fn advance(&mut self, event: SyncEvent) -> (action: SyncAction)
        requires
            old(self).wf(),
            old(self).accepts(event),
            event is Written ==> old(self).has_room_spec(),
        ensures
            final(self).wf(),
            final(self).remaining() < old(self).remaining(),
            ({
                let setup = old(self).setup;
                let repositories = old(self).repositories@;
                let synced = old(self).synced_count;
                match (old(self).stage, event) {
                    (SyncStage::Fetching { index }, SyncEvent::IssuesFetched(remotes)) => {
                        &&& final(self).setup == setup
                        &&& final(self).repositories@ == repositories
                        &&& final(self).synced_count == synced
                        &&& final(self).stage == SyncStage::Writing {
                            count: remotes@.len() as usize,
                            next: (index + 1) as usize,
                        }
                        &&& action matches SyncAction::WriteIssues(is) && are_issue_records(
                            is@,
                            remotes@,
                            setup,
                            repositories[index as int].id@,
                        )
                    },
                    (SyncStage::Fetching { .. }, SyncEvent::FetchFailed(message)) => {
                        &&& SyncRun::fails_with(*final(self), action, action->Fail_0)
                        &&& action matches SyncAction::Fail(ServiceError::Integration(m)) && m
                            == message
                    },
                    (SyncStage::Writing { count, next }, SyncEvent::Written) => {
                        SyncRun::begins_repository(
                            *final(self),
                            action,
                            setup,
                            repositories,
                            next as int,
                            (synced + count) as u64,
                        )
                    },
                    (SyncStage::Touching, SyncEvent::Touched) => {
                        &&& final(self).stage is Finished
                        &&& action matches SyncAction::Finish(result) && result.provider
                            == setup.provider && result.synced_count == synced
                    },
                    (_, SyncEvent::WriteFailed(e)) => SyncRun::fails_with(*final(self), action, e),
                    (_, SyncEvent::TouchFailed(e)) => SyncRun::fails_with(*final(self), action, e),
                    _ => false,
                }
            }),
    {
        let mut stage = SyncStage::Finished;
        std::mem::swap(&mut stage, &mut self.stage);
        match (stage, event) {
            (SyncStage::Fetching { index }, SyncEvent::IssuesFetched(remotes)) => {
                let repository_count = self.repositories.len();
                let fetched = remotes.len();
                assert(index < repository_count);
                let issues = issues_from_remote(
                    remotes,
                    usize::MAX,
                    self.setup.tenant_id.as_str(),
                    self.setup.organization_id.as_str(),
                    self.repositories[index].id.as_str(),
                    self.setup.now,
                );
                self.stage = SyncStage::Writing { count: issues.len(), next: index + 1 };
                SyncAction::WriteIssues(issues)
            },
            (SyncStage::Fetching { .. }, SyncEvent::FetchFailed(message)) => {
                SyncAction::Fail(ServiceError::Integration(message))
            },
            (SyncStage::Writing { count, next }, SyncEvent::Written) => {
                self.synced_count = self.synced_count + count as u64;
                self.begin_repository(next)
            },
            (SyncStage::Touching, SyncEvent::Touched) => {
                SyncAction::Finish(
                    SyncResult {
                        provider: self.setup.provider.clone(),
                        synced_count: self.synced_count,
                    },
                )
            },
            (_, SyncEvent::WriteFailed(e)) => SyncAction::Fail(e),
            (_, SyncEvent::TouchFailed(e)) => SyncAction::Fail(e),
            (_, _) => SyncAction::Touch,
        }
    }
}

/// Law: a sync ends. The steps it can still take are never negative and are
/// none exactly when it is over; since every step lowers them (see
/// `advance`), a driver that keeps stepping reaches `Finish` or `Fail`.
pub proof fn lemma_sync_run_ends(run: SyncRun)
    requires
        run.wf(),
    ensures
        run.remaining() >= 0,
        run.remaining() == 0 <==> run.stage is Finished,
{
}

} // verus!
