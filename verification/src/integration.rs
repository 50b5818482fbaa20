//! Decisions of the provider integration: linking accounts, the OAuth
//! handshake, which credential a sync uses, and what the status and
//! administration listings show; also the tracker's vote toggle.

use vstd::prelude::*;

use crate::domain::{
    copy_opt_string, AdminIntegrationView, IntegrationStatus, LinkIntegrationCommand,
    OAuthBeginResult, ProviderAccount, UtcTimestamp,
};
use crate::error::{configuration_error, validation_error, ServiceError};
use crate::external::{is_uuid_v4_text, new_uuid_v4, utc_now, TIMESTAMP_SECS_BOUND};
use crate::rules::GITHUB_PROVIDER;
use crate::text::{concat2, decimal, decimal_string, is_blank_str, is_blank_text, text_eq};

verus! {

/// `id` is `prefix` followed by a version 4 UUID in its hyphenated text.
pub open spec fn is_record_id(id: Seq<char>, prefix: Seq<char>) -> bool {
    &&& id.len() == prefix.len() + 36
    &&& id.subrange(0, prefix.len() as int) == prefix
    &&& is_uuid_v4_text(id.subrange(prefix.len() as int, id.len() as int))
}

/// A fresh record id: `prefix` followed by a random UUID.
pub fn new_record_id(prefix: &str) -> (id: String)
    ensures
        is_record_id(id@, prefix@),
{
    let u = new_uuid_v4();
    let id = concat2(prefix, u.as_str());
    assert(id@.subrange(0, prefix@.len() as int) =~= prefix@);
    assert(id@.subrange(prefix@.len() as int, id@.len() as int) =~= u@);
    id
}

// ── Status of a tenant scope's integration ──────────────────────────────

/// `s` is the status a scope's integration shows for the account found:
/// linked with the account's details where an active account was found,
/// unlinked for `provider` otherwise.
pub open spec fn shows_status(s: IntegrationStatus, provider: Seq<char>, account: Option<ProviderAccount>) -> bool {
    match account {
        Some(a) => {
            &&& s.provider == a.provider
            &&& s.linked
            &&& s.status == Some(a.status)
            &&& s.external_account_id == a.external_account_id
            &&& s.scopes == a.scopes
            &&& s.last_synced_at == a.last_synced_at
        },
        None => {
            &&& s.provider@ == provider
            &&& !s.linked
            &&& s.status is None
            &&& s.external_account_id is None
            &&& s.scopes is None
            &&& s.last_synced_at is None
        },
    }
}

/// The status a scope's integration shows for the active account found, if
/// any.
pub fn integration_status_from_account(provider: &str, account: Option<ProviderAccount>) -> (s:
    IntegrationStatus)
    ensures
        shows_status(s, provider@, account),
{
    match account {
        Some(account) => IntegrationStatus {
            provider: account.provider,
            linked: true,
            status: Some(account.status),
            external_account_id: account.external_account_id,
            scopes: account.scopes,
            last_synced_at: account.last_synced_at,
        },
        None => IntegrationStatus {
            provider: String::from_str(provider),
            linked: false,
            status: None,
            external_account_id: None,
            scopes: None,
            last_synced_at: None,
        },
    }
}

/// `a` is the active account linking `command` for the scope, holding the
/// encrypted token, created and updated `now`, never synced.
pub open spec fn is_linked_account(
    a: ProviderAccount,
    tenant_id: Seq<char>,
    organization_id: Seq<char>,
    provider: Seq<char>,
    command: LinkIntegrationCommand,
    access_token_cipher: Seq<char>,
    now: UtcTimestamp,
) -> bool {
    &&& is_record_id(a.id@, "github-provider-"@)
    &&& a.tenant_id@ == tenant_id
    &&& a.organization_id@ == organization_id
    &&& a.provider@ == provider
    &&& a.external_account_id == command.external_account_id
    &&& a.access_token_cipher@ == access_token_cipher
    &&& a.scopes == command.scopes
    &&& a.status@ == "active"@
    &&& a.last_synced_at is None
    &&& a.created_at == now
    &&& a.updated_at == now
}

/// The account a link writes: active, with a fresh id, the command's
/// external id and scopes, and the encrypted token.
pub fn account_for_link(
    tenant_id: &str,
    organization_id: &str,
    provider: &str,
    command: &LinkIntegrationCommand,
    access_token_cipher: &str,
    now: UtcTimestamp,
) -> (a: ProviderAccount)
    ensures
        is_linked_account(
            a,
            tenant_id@,
            organization_id@,
            provider@,
            *command,
            access_token_cipher@,
            now,
        ),
        a.tenant_id@ == tenant_id@,
        a.organization_id@ == organization_id@,
        a.provider@ == provider@,
        a.status@ == "active"@,
        a.external_account_id == command.external_account_id,
        a.scopes == command.scopes,
        a.access_token_cipher@ == access_token_cipher@,
{
    let id = new_record_id("github-provider-");
    proof {
        reveal_strlit("github-provider-");
    }
    ProviderAccount {
        id,
        tenant_id: String::from_str(tenant_id),
        organization_id: String::from_str(organization_id),
        provider: String::from_str(provider),
        external_account_id: copy_opt_string(&command.external_account_id),
        access_token_cipher: String::from_str(access_token_cipher),
        scopes: copy_opt_string(&command.scopes),
        status: String::from_str("active"),
        last_synced_at: None,
        created_at: now,
        updated_at: now,
    }
}

/// Law: the status read after a link gives back what the link wrote: the
/// scope is linked, active, with the command's external account and scopes,
/// not yet synced.
pub proof fn lemma_status_after_link(
    account: ProviderAccount,
    status: IntegrationStatus,
    tenant_id: Seq<char>,
    organization_id: Seq<char>,
    provider: Seq<char>,
    command: LinkIntegrationCommand,
    access_token_cipher: Seq<char>,
    now: UtcTimestamp,
)
    requires
        is_linked_account(
            account,
            tenant_id,
            organization_id,
            provider,
            command,
            access_token_cipher,
            now,
        ),
        shows_status(status, provider, Some(account)),
    ensures
        status.linked,
        status.provider@ == provider,
        status.status matches Some(s) && s@ == "active"@,
        status.external_account_id == command.external_account_id,
        status.scopes == command.scopes,
        status.last_synced_at is None,
{
}

/// Law: once a scope has no active account (after an unlink revokes it, or
/// before any link), its status is unlinked for the provider asked about,
/// with no status, account, scopes or sync time.
pub proof fn lemma_status_after_unlink(status: IntegrationStatus, provider: Seq<char>)
    requires
        shows_status(status, provider, None),
    ensures
        !status.linked,
        status.provider@ == provider,
        status.status is None,
        status.external_account_id is None,
        status.scopes is None,
        status.last_synced_at is None,
{
}

/// Law: a linked account belongs to the scope that linked it, so the scope's
/// lookup of its active account finds it, and the status that scope then
/// reads is linked with the command's account and scopes. The lookup finds
/// the account stored under the scope's tenant, organization and provider
/// while it is active.
pub proof fn lemma_link_found_by_its_scope(
    account: ProviderAccount,
    status: IntegrationStatus,
    tenant_id: Seq<char>,
    organization_id: Seq<char>,
    provider: Seq<char>,
    command: LinkIntegrationCommand,
    access_token_cipher: Seq<char>,
    now: UtcTimestamp,
)
    requires
        is_linked_account(
            account,
            tenant_id,
            organization_id,
            provider,
            command,
            access_token_cipher,
            now,
        ),
        shows_status(status, provider, Some(account)),
    ensures
        account.tenant_id@ == tenant_id,
        account.organization_id@ == organization_id,
        account.provider@ == provider,
        account.status@ == "active"@,
        account.access_token_cipher@ == access_token_cipher,
        status.linked,
        status.provider@ == provider,
        status.external_account_id == command.external_account_id,
        status.scopes == command.scopes,
{
}

/// The administration listing's view of an account row: linked exactly when
/// the account is active.
pub fn admin_integration_view(
    tenant_id: String,
    organization_id: String,
    provider: String,
    external_account_id: Option<String>,
    scopes: Option<String>,
    status: String,
    last_synced_at: Option<UtcTimestamp>,
) -> (v: AdminIntegrationView)
    ensures
        v.tenant_id == tenant_id,
        v.organization_id == organization_id,
        v.provider == provider,
        v.linked == (status@ == "active"@),
        v.status == Some(status),
        v.external_account_id == external_account_id,
        v.scopes == scopes,
        v.last_synced_at == last_synced_at,
{
    let linked = text_eq(status.as_str(), "active");
    AdminIntegrationView {
        tenant_id,
        organization_id,
        provider,
        linked,
        status: Some(status),
        external_account_id,
        scopes,
        last_synced_at,
    }
}

// ── Linking by token ────────────────────────────────────────────────────

/// Whether a link must ask GitHub for the account id: the command names
/// none, or a blank one.
pub fn needs_external_account_lookup(command: &LinkIntegrationCommand) -> (b: bool)
    ensures
        b == match command.external_account_id {
            None => true,
            Some(id) => is_blank_text(id@),
        },
{
    match &command.external_account_id {
        None => true,
        Some(id) => is_blank_str(id.as_str()),
    }
}

/// The command with the account id GitHub reported for its token.
pub fn with_external_account_id(command: LinkIntegrationCommand, user_id: u64) -> (c:
    LinkIntegrationCommand)
    ensures
        c.access_token == command.access_token,
        c.scopes == command.scopes,
        c.external_account_id matches Some(id) && id@ == decimal(user_id as nat),
{
    LinkIntegrationCommand {
        access_token: command.access_token,
        external_account_id: Some(decimal_string(user_id)),
        scopes: command.scopes,
    }
}

/// The GitHub REST base used when none is configured.
pub const DEFAULT_API_BASE: &'static str = "https://api.github.com";

/// The GitHub REST base: the configured one, else the public API.
pub fn resolve_api_base(configured: Option<String>) -> (base: String)
    ensures
        base@ == match configured {
            Some(v) => v@,
            None => DEFAULT_API_BASE@,
        },
{
    crate::records::configured_or(configured, DEFAULT_API_BASE)
}

/// Where a sync's credential comes from.
pub enum ProviderSource {
    /// The encrypted token of the scope's active account.
    LinkedAccount(String),
    /// The personal token configured for the whole deployment.
    EnvironmentToken,
}

/// The message when a scope has no credential to sync with.
pub open spec fn not_linked_message() -> Seq<char> {
    "GitHub integration is not linked; configure tenant OAuth/PAT linking before sync"@
}

/// Chooses a sync's credential: the scope's active account where there is
/// one, else the deployment's token where it is configured, else a
/// configuration error.
pub fn choose_provider_source(account: Option<ProviderAccount>, environment_token_configured: bool) -> (r:
    Result<ProviderSource, ServiceError>)
    ensures
        match account {
            Some(a) => r matches Ok(ProviderSource::LinkedAccount(c)) && c == a.access_token_cipher,
            None => if environment_token_configured {
                r matches Ok(ProviderSource::EnvironmentToken)
            } else {
                r matches Err(ServiceError::Configuration(m)) && m@ == not_linked_message()
            },
        },
{
    match account {
        Some(a) => Ok(ProviderSource::LinkedAccount(a.access_token_cipher)),
        None => if environment_token_configured {
            Ok(ProviderSource::EnvironmentToken)
        } else {
            Err(
                configuration_error(
                    "GitHub integration is not linked; configure tenant OAuth/PAT linking before sync",
                ),
            )
        },
    }
}

// ── OAuth handshake ─────────────────────────────────────────────────────

/// How long an OAuth state stays valid, in seconds: ten minutes.
pub const OAUTH_STATE_TTL_SECS: i64 = 600;

/// The instant an OAuth state issued at `issued_at` expires.
pub fn oauth_state_expiry(issued_at: UtcTimestamp) -> (expires_at: UtcTimestamp)
    requires
        issued_at.secs <= i64::MAX - OAUTH_STATE_TTL_SECS,
    ensures
        expires_at.secs == issued_at.secs + OAUTH_STATE_TTL_SECS,
        expires_at.nanos == issued_at.nanos,
{
    UtcTimestamp { secs: issued_at.secs + OAUTH_STATE_TTL_SECS, nanos: issued_at.nanos }
}

/// A pending OAuth handshake: its random state and when it was issued and
/// expires.
pub struct OAuthPending {
    pub state: String,
    pub issued_at: UtcTimestamp,
    pub expires_at: UtcTimestamp,
}

/// Starts a handshake now: a fresh random state that expires ten minutes
/// after it is issued.
pub fn new_oauth_pending() -> (p: OAuthPending)
    ensures
        is_uuid_v4_text(p.state@),
        p.expires_at.secs == p.issued_at.secs + OAUTH_STATE_TTL_SECS,
        p.expires_at.nanos == p.issued_at.nanos,
{
    let state = new_uuid_v4();
    let issued_at = utc_now();
    let expires_at = oauth_state_expiry(issued_at);
    OAuthPending { state, issued_at, expires_at }
}

/// What starting a handshake hands back: the GitHub provider, the
/// authorization address and the state.
pub fn oauth_begin_result(authorization_url: String, state: String) -> (r: OAuthBeginResult)
    ensures
        r.provider@ == GITHUB_PROVIDER@,
        r.authorization_url == authorization_url,
        r.state == state,
{
    OAuthBeginResult { provider: String::from_str(GITHUB_PROVIDER), authorization_url, state }
}

/// The scope a consumed state belonged to; an unknown or expired state is
/// rejected.
pub fn oauth_state_scope(found: Option<(String, String)>) -> (r: Result<(String, String), ServiceError>)
    ensures
        match found {
            Some(scope) => r == Ok::<(String, String), ServiceError>(scope),
            None => r matches Err(ServiceError::Validation(m)) && m@
                == "oauth state is invalid or expired"@,
        },
{
    match found {
        Some(scope) => Ok(scope),
        None => Err(validation_error("oauth state is invalid or expired")),
    }
}

/// `a` is not later than `b`.
pub open spec fn not_after(a: UtcTimestamp, b: UtcTimestamp) -> bool {
    a.secs < b.secs || (a.secs == b.secs && a.nanos <= b.nanos)
}

/// The scope of a pending state looked up at `now`: the tenant and
/// organization it was issued for while it has not expired; an unknown or
/// expired state is rejected.
pub fn oauth_pending_scope(found: Option<(String, String, UtcTimestamp)>, now: UtcTimestamp) -> (r:
    Result<(String, String), ServiceError>)
    ensures
        match found {
            Some((tenant_id, organization_id, expires_at)) => if not_after(now, expires_at) {
                r == Ok::<(String, String), ServiceError>((tenant_id, organization_id))
            } else {
                r matches Err(ServiceError::Validation(m)) && m@
                    == "oauth state is invalid or expired"@
            },
            None => r matches Err(ServiceError::Validation(m)) && m@
                == "oauth state is invalid or expired"@,
        },
{
    let live = match found {
        Some((tenant_id, organization_id, expires_at)) => {
            if now.secs < expires_at.secs || (now.secs == expires_at.secs && now.nanos
                <= expires_at.nanos) {
                Some((tenant_id, organization_id))
            } else {
                None
            }
        },
        None => None,
    };
    oauth_state_scope(live)
}

/// An accepted OAuth state: the scope it was issued for, and the state to
/// delete before anything else is done with it, so that it is accepted
/// once.
pub struct OAuthAcceptance {
    pub tenant_id: String,
    pub organization_id: String,
    pub consumed_state: String,
}

/// Accepts the pending state `state` looked up at `now`: while it has not
/// expired, its scope together with the deletion of that very state; an
/// unknown or expired state is rejected and nothing is deleted.
pub fn accept_oauth_state(
    state: &str,
    found: Option<(String, String, UtcTimestamp)>,
    now: UtcTimestamp,
) -> (r: Result<OAuthAcceptance, ServiceError>)
    ensures
        match found {
            Some((tenant_id, organization_id, expires_at)) => if not_after(now, expires_at) {
                r matches Ok(a) && a.tenant_id == tenant_id && a.organization_id
                    == organization_id && a.consumed_state@ == state@
            } else {
                r matches Err(ServiceError::Validation(m)) && m@
                    == "oauth state is invalid or expired"@
            },
            None => r matches Err(ServiceError::Validation(m)) && m@
                == "oauth state is invalid or expired"@,
        },
{
    match oauth_pending_scope(found, now) {
        Ok((tenant_id, organization_id)) => Ok(
            OAuthAcceptance { tenant_id, organization_id, consumed_state: String::from_str(state) },
        ),
        Err(e) => Err(e),
    }
}

/// Law: a state started by `new_oauth_pending` is accepted up to ten
/// minutes after it was issued and refused once more than ten minutes have
/// passed.
pub proof fn lemma_oauth_state_expires(
    issued_at: UtcTimestamp,
    expires_at: UtcTimestamp,
    now: UtcTimestamp,
)
    requires
        expires_at.secs == issued_at.secs + OAUTH_STATE_TTL_SECS,
        expires_at.nanos == issued_at.nanos,
    ensures
        not_after(now, expires_at) <==> (now.secs < issued_at.secs + 600 || (now.secs
            == issued_at.secs + 600 && now.nanos <= issued_at.nanos)),
{
}

/// The scopes a token exchange grants: those GitHub reported, unless absent
/// or blank, else the configured ones.
pub fn oauth_granted_scopes(reported: Option<String>, configured: &str) -> (r: Option<String>)
    ensures
        r matches Some(s) && s@ == match reported {
            Some(v) => if is_blank_text(v@) {
                configured@
            } else {
                v@
            },
            None => configured@,
        },
{
    match reported {
        Some(v) => if is_blank_str(v.as_str()) {
            Some(String::from_str(configured))
        } else {
            Some(v)
        },
        None => Some(String::from_str(configured)),
    }
}

/// The link command an exchanged token becomes: no account id yet, the
/// granted scopes.
pub fn oauth_link_command(access_token: String, reported_scope: Option<String>, configured_scopes: &str) -> (c:
    LinkIntegrationCommand)
    ensures
        c.access_token == access_token,
        c.external_account_id is None,
        c.scopes matches Some(s) && s@ == match reported_scope {
            Some(v) => if is_blank_text(v@) {
                configured_scopes@
            } else {
                v@
            },
            None => configured_scopes@,
        },
{
    LinkIntegrationCommand {
        access_token,
        external_account_id: None,
        scopes: oauth_granted_scopes(reported_scope, configured_scopes),
    }
}

// ── Votes ───────────────────────────────────────────────────────────────

/// What a vote toggle does.
#[derive(Clone, Copy, Debug, PartialEq, Eq, Structural)]
pub enum VoteChange {
    /// The user had voted: the vote is withdrawn and the count drops.
    Withdraw,
    /// The user had not voted: a vote is cast and the count rises.
    Cast,
}

/// The change a toggle makes: withdraw a vote the user has, cast one the
/// user lacks.
pub fn vote_change(already_voted: bool) -> (c: VoteChange)
    ensures
        c == (if already_voted {
            VoteChange::Withdraw
        } else {
            VoteChange::Cast
        }),
{
    if already_voted {
        VoteChange::Withdraw
    } else {
        VoteChange::Cast
    }
}

impl VoteChange {
    /// Whether the user has a vote after the change.
    pub open spec fn voted_after_spec(self) -> bool {
        self == VoteChange::Cast
    }

    /// Whether the user has a vote after the change; what a toggle reports.
    pub fn voted_after(&self) -> (b: bool)
        ensures
            b == self.voted_after_spec(),
    {
        match self {
            VoteChange::Withdraw => false,
            VoteChange::Cast => true,
        }
    }
}

/// Law: a toggle reports the opposite of the vote state it found, and two
/// toggles in a row restore it.
pub proof fn lemma_vote_toggle_flips(already_voted: bool)
    ensures
        (if already_voted {
            VoteChange::Withdraw
        } else {
            VoteChange::Cast
        }).voted_after_spec() == !already_voted,
        ({
            let after_first = (if already_voted {
                VoteChange::Withdraw
            } else {
                VoteChange::Cast
            }).voted_after_spec();
            (if after_first {
                VoteChange::Withdraw
            } else {
                VoteChange::Cast
            }).voted_after_spec() == already_voted
        }),
{
}

} // verus!
