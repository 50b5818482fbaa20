use sdkwork_github::integration::accept_oauth_state;
use sdkwork_github::domain::{LinkIntegrationCommand, ProviderAccount, UtcTimestamp};
use sdkwork_github::error::{map_service_error, ServiceError, STATUS_SERVICE_UNAVAILABLE};
use sdkwork_github::integration::{
    account_for_link, admin_integration_view, choose_provider_source,
    integration_status_from_account, needs_external_account_lookup, new_oauth_pending,
    new_record_id, oauth_begin_result, oauth_granted_scopes, oauth_link_command,
    oauth_state_expiry, oauth_state_scope, resolve_api_base, vote_change,
    with_external_account_id, ProviderSource, VoteChange, OAUTH_STATE_TTL_SECS,
};
use sdkwork_github::integration::oauth_pending_scope;
use sdkwork_github::rules::GITHUB_PROVIDER;

const NOW: UtcTimestamp = UtcTimestamp { secs: 1_700_000_000, nanos: 123 };

fn is_uuid_v4(s: &str) -> bool {
    let b = s.as_bytes();
    b.len() == 36
        && b.iter().enumerate().all(|(i, c)| match i {
            8 | 13 | 18 | 23 => *c == b'-',
            _ => c.is_ascii_digit() || (b'a'..=b'f').contains(c),
        })
        && b[14] == b'4'
        && matches!(b[19], b'8' | b'9' | b'a' | b'b')
}

#[test]
fn integration_status_is_unlinked_by_default() {
    let status = integration_status_from_account(GITHUB_PROVIDER, None);
    assert_eq!(status.provider, "github");
    assert!(!status.linked);
    assert!(status.status.is_none() && status.scopes.is_none() && status.external_account_id.is_none());
}

fn link_command() -> LinkIntegrationCommand {
    LinkIntegrationCommand { access_token: "ghp_test".to_owned(), external_account_id: Some("12345".to_owned()), scopes: Some("repo".to_owned()) }
}

#[test]
fn status_after_link_gives_back_the_link() {
    let account = account_for_link("100001", "0", "github", &link_command(), "cipher-test", NOW);
    assert!(account.id.starts_with("github-provider-"));
    assert!(is_uuid_v4(&account.id["github-provider-".len()..]));
    assert_eq!(account.status, "active");
    assert_eq!(account.access_token_cipher, "cipher-test");
    assert!(account.last_synced_at.is_none());
    let status = integration_status_from_account("github", Some(account));
    assert!(status.linked);
    assert_eq!(status.status.as_deref(), Some("active"));
    assert_eq!(status.external_account_id.as_deref(), Some("12345"));
    assert_eq!(status.scopes.as_deref(), Some("repo"));
}

#[test]
fn record_ids_are_prefixed_uuids() {
    let a = new_record_id("tracker-issue-");
    let b = new_record_id("tracker-issue-");
    assert!(a.starts_with("tracker-issue-") && is_uuid_v4(&a["tracker-issue-".len()..]));
    assert_ne!(a, b);
}

#[test]
fn admin_view_links_active_accounts() {
    let v = admin_integration_view("100001".into(), "0".into(), "github".into(), None, None, "active".into(), None);
    assert!(v.linked);
    assert_eq!(v.status.as_deref(), Some("active"));
    let v = admin_integration_view("100001".into(), "0".into(), "github".into(), None, None, "revoked".into(), Some(NOW));
    assert!(!v.linked);
    assert_eq!(v.last_synced_at, Some(NOW));
}

#[test]
fn account_lookup_and_enrichment() {
    assert!(!needs_external_account_lookup(&link_command()));
    let mut c = link_command();
    c.external_account_id = Some("  ".into());
    assert!(needs_external_account_lookup(&c));
    c.external_account_id = None;
    assert!(needs_external_account_lookup(&c));
    let enriched = with_external_account_id(c, 583231);
    assert_eq!(enriched.external_account_id.as_deref(), Some("583231"));
    assert_eq!(enriched.access_token, "ghp_test");
}

#[test]
fn sync_integration_requires_linked_provider() {
    match choose_provider_source(None, false) {
        Err(error) => {
            assert!(matches!(error, ServiceError::Configuration(ref m) if m == "GitHub integration is not linked; configure tenant OAuth/PAT linking before sync"));
            assert_eq!(map_service_error(error).status, STATUS_SERVICE_UNAVAILABLE);
        }
        Ok(_) => panic!("a scope without credentials must not sync"),
    }
    assert!(matches!(choose_provider_source(None, true), Ok(ProviderSource::EnvironmentToken)));
    let account: ProviderAccount = account_for_link("t", "o", "github", &link_command(), "sealed", NOW);
    match choose_provider_source(Some(account), false) {
        Ok(ProviderSource::LinkedAccount(cipher)) => assert_eq!(cipher, "sealed"),
        _ => panic!("a linked account must be used"),
    }
}

#[test]
fn oauth_state_expires_after_ten_minutes() {
    assert_eq!(OAUTH_STATE_TTL_SECS, 600);
    let e = oauth_state_expiry(NOW);
    assert_eq!(e, UtcTimestamp { secs: 1_700_000_600, nanos: 123 });
    let p = new_oauth_pending();
    assert!(is_uuid_v4(&p.state));
    assert!(p.issued_at.secs > 1_600_000_000);
    assert_eq!(p.expires_at.secs, p.issued_at.secs + 600);
    assert_eq!(p.expires_at.nanos, p.issued_at.nanos);
    let r = oauth_begin_result("https://github.com/login/oauth/authorize?state=s".into(), "s".into());
    assert_eq!(r.provider, "github");
    assert_eq!(r.state, "s");
}

#[test]
fn oauth_completion_decisions() {
    let scope = oauth_state_scope(Some(("100001".into(), "0".into()))).unwrap();
    assert_eq!(scope, ("100001".to_owned(), "0".to_owned()));
    match oauth_state_scope(None) {
        Err(ServiceError::Validation(m)) => assert_eq!(m, "oauth state is invalid or expired"),
        _ => panic!("unknown state must be rejected"),
    }
    assert_eq!(oauth_granted_scopes(Some("repo,user".into()), "repo").as_deref(), Some("repo,user"));
    assert_eq!(oauth_granted_scopes(Some(" ".into()), "repo read:org").as_deref(), Some("repo read:org"));
    assert_eq!(oauth_granted_scopes(None, "repo").as_deref(), Some("repo"));
    let c = oauth_link_command("gho_x".into(), None, "repo");
    assert_eq!(c.access_token, "gho_x");
    assert!(c.external_account_id.is_none());
    assert_eq!(c.scopes.as_deref(), Some("repo"));
}

#[test]
fn api_base_and_votes() {
    assert_eq!(resolve_api_base(None), "https://api.github.com");
    assert_eq!(resolve_api_base(Some("http://localhost:9".into())), "http://localhost:9");
    assert_eq!(vote_change(true), VoteChange::Withdraw);
    assert_eq!(vote_change(false), VoteChange::Cast);
    assert!(!vote_change(true).voted_after());
    assert!(vote_change(false).voted_after());
    let after = vote_change(false).voted_after();
    assert!(!vote_change(after).voted_after());
}

#[test]
fn oauth_states_expire_ten_minutes_after_issue() {
    let pending = new_oauth_pending();
    let expires_at = pending.expires_at;
    let found = || Some(("100001".to_string(), "0".to_string(), expires_at));
    let at = |secs: i64, nanos: u32| UtcTimestamp { secs, nanos };
    let issued = pending.issued_at;
    assert_eq!(
        oauth_pending_scope(found(), at(issued.secs + 599, issued.nanos)).unwrap(),
        ("100001".to_string(), "0".to_string())
    );
    assert!(oauth_pending_scope(found(), at(issued.secs + 600, issued.nanos)).is_ok());
    let late = at(issued.secs + 601, issued.nanos);
    match oauth_pending_scope(found(), late) {
        Err(ServiceError::Validation(m)) => assert_eq!(m, "oauth state is invalid or expired"),
        other => panic!("unexpected {other:?}"),
    }
    match oauth_pending_scope(None, issued) {
        Err(ServiceError::Validation(m)) => assert_eq!(m, "oauth state is invalid or expired"),
        other => panic!("unexpected {other:?}"),
    }
}

#[test]
fn an_accepted_oauth_state_is_consumed() {
    let expires_at = UtcTimestamp { secs: NOW.secs + 600, nanos: NOW.nanos };
    let found = Some(("100001".to_string(), "0".to_string(), expires_at));
    let accepted = accept_oauth_state("state-1", found.clone(), NOW).unwrap();
    assert_eq!(accepted.consumed_state, "state-1");
    assert_eq!((accepted.tenant_id.as_str(), accepted.organization_id.as_str()), ("100001", "0"));
    let late = UtcTimestamp { secs: NOW.secs + 601, nanos: NOW.nanos };
    match accept_oauth_state("state-1", found, late) {
        Err(ServiceError::Validation(m)) => assert_eq!(m, "oauth state is invalid or expired"),
        _ => panic!("an expired state is refused"),
    }
    assert!(accept_oauth_state("state-1", None, NOW).is_err());
}
