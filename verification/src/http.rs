//! Decisions of the HTTP surface: the app API's paths, paging defaults,
//! whose tenant scope a request acts for, and where the OAuth callback
//! sends the browser.

use vstd::prelude::*;

use crate::error::{ApiProblem, ServiceError};
use crate::external::{url_encode, url_encoded};
use crate::records::configured_or;
use crate::text::{is_blank_text, push_text};

verus! {

pub const REPOSITORIES: &'static str = "/app/v3/api/github/repositories";

pub const REPOSITORIES_SYNC: &'static str = "/app/v3/api/github/repositories/sync";

pub const ISSUES: &'static str = "/app/v3/api/github/issues";

pub const ISSUES_SYNC: &'static str = "/app/v3/api/github/issues/sync";

pub const PLANS: &'static str = "/app/v3/api/github/plans";

pub const CATALOG_BOOTSTRAP: &'static str = "/app/v3/api/github/catalog/bootstrap";

pub const INTEGRATION: &'static str = "/app/v3/api/github/integration";

pub const INTEGRATION_OAUTH_BEGIN: &'static str = "/app/v3/api/github/integration/oauth/begin";

pub const INTEGRATION_OAUTH_CALLBACK: &'static str = "/app/v3/api/github/integration/oauth/callback";

pub const TRACKER_ISSUES: &'static str = "/app/v3/api/github/tracker/issues";

pub const TRACKER_ISSUE_DETAIL: &'static str = "/app/v3/api/github/tracker/issues/:issue_id";

pub const TRACKER_ISSUE_COMMENTS: &'static str = "/app/v3/api/github/tracker/issues/:issue_id/comments";

pub const TRACKER_ISSUE_VOTES: &'static str = "/app/v3/api/github/tracker/issues/:issue_id/votes";

pub const TRACKER_ISSUE_VOTE_STATUS: &'static str = "/app/v3/api/github/tracker/issues/:issue_id/votes/status";

pub const TRACKER_LABELS: &'static str = "/app/v3/api/github/tracker/labels";

pub const TRACKER_MILESTONES: &'static str = "/app/v3/api/github/tracker/milestones";

pub const TRACKER_MILESTONE_ISSUES: &'static str = "/app/v3/api/github/tracker/milestones/:milestone_id/issues";

pub const TRACKER_ROADMAPS: &'static str = "/app/v3/api/github/tracker/roadmaps";

pub const TRACKER_ROADMAP_DETAIL: &'static str = "/app/v3/api/github/tracker/roadmaps/:roadmap_id";

pub const TRACKER_ROADMAP_ITEMS: &'static str = "/app/v3/api/github/tracker/roadmaps/:roadmap_id/items";

pub const TRACKER_ROADMAP_ITEM_DETAIL: &'static str = "/app/v3/api/github/tracker/roadmaps/:roadmap_id/items/:item_id";

// ── Paging ──────────────────────────────────────────────────────────────

/// The page a listing shows when none is asked for.
pub const DEFAULT_PAGE: u32 = 1;

/// The page size a listing uses when none is asked for.
pub const DEFAULT_PAGE_SIZE: u32 = 20;

/// The largest page size a listing serves.
pub const MAX_PAGE_SIZE: u32 = 100;

/// The page a request reads: the asked page, at least 1.
pub open spec fn page_of(page: Option<u32>) -> u32 {
    match page {
        Some(p) => if p < 1 {
            1
        } else {
            p
        },
        None => DEFAULT_PAGE,
    }
}

/// The page size a request reads: the asked size, between 1 and 100.
pub open spec fn page_size_of(page_size: Option<u32>) -> u32 {
    match page_size {
        Some(s) => if s < 1 {
            1
        } else if s > MAX_PAGE_SIZE {
            MAX_PAGE_SIZE
        } else {
            s
        },
        None => DEFAULT_PAGE_SIZE,
    }
}

/// The page and page size a listing request reads.
pub fn normalize_page(page: Option<u32>, page_size: Option<u32>) -> (r: (u32, u32))
    ensures
        r.0 == page_of(page),
        r.1 == page_size_of(page_size),
        1 <= r.0,
        1 <= r.1 <= MAX_PAGE_SIZE,
{
    let p = match page {
        Some(p) => if p < 1 {
            1
        } else {
            p
        },
        None => DEFAULT_PAGE,
    };
    let s = match page_size {
        Some(s) => if s < 1 {
            1
        } else if s > MAX_PAGE_SIZE {
            MAX_PAGE_SIZE
        } else {
            s
        },
        None => DEFAULT_PAGE_SIZE,
    };
    (p, s)
}

/// Law: paging a request that already names a valid page and size changes
/// nothing, so normalizing twice is normalizing once.
pub proof fn lemma_normalize_page_idempotent(page: Option<u32>, page_size: Option<u32>)
    ensures
        page_of(Some(page_of(page))) == page_of(page),
        page_size_of(Some(page_size_of(page_size))) == page_size_of(page_size),
{
}

// ── Whose scope a request acts for ──────────────────────────────────────

/// The authenticated caller of a request: the tenancy and user the session
/// carries.
pub struct RequestPrincipal {
    pub tenant_id: String,
    pub organization_id: Option<String>,
    pub user_id: String,
}

/// A value the request names, unless absent or blank.
pub open spec fn named(value: Option<&str>) -> Option<Seq<char>> {
    match value {
        Some(v) => if is_blank_text(v@) {
            None
        } else {
            Some(v@)
        },
        None => None,
    }
}

/// The tenant a request acts for: the one it names, else the caller's.
pub open spec fn requested_tenant(principal: RequestPrincipal, tenant_id: Option<&str>) -> Seq<char> {
    match named(tenant_id) {
        Some(t) => t,
        None => principal.tenant_id@,
    }
}

/// The organization a request acts for: the one it names, else the
/// caller's, if any.
pub open spec fn requested_organization(principal: RequestPrincipal, organization_id: Option<&str>) -> Option<
    Seq<char>,
> {
    match named(organization_id) {
        Some(o) => Some(o),
        None => match principal.organization_id {
            Some(o) => Some(o@),
            None => None,
        },
    }
}

/// The value the request names, unless absent or blank.
fn named_value(value: Option<&str>) -> (r: Option<String>)
    ensures
        match r {
            Some(s) => named(value) == Some(s@),
            None => named(value) is None,
        },
{
    match value {
        Some(v) => if crate::text::is_blank_str(v) {
            None
        } else {
            Some(String::from_str(v))
        },
        None => None,
    }
}

/// The tenant and organization a request acts for, and the caller's user.
/// A request without a caller is unauthorized; one that names no
/// organization from a caller without one is a bad request.
pub fn resolve_scope_with_user(
    principal: Option<&RequestPrincipal>,
    tenant_id: Option<&str>,
    organization_id: Option<&str>,
) -> (r: Result<(String, String, String), ApiProblem>)
    ensures
        match principal {
            None => r matches Err(p) && p.status == crate::error::STATUS_UNAUTHORIZED && p.detail@
                == "authenticated principal is required"@,
            Some(caller) => match requested_organization(*caller, organization_id) {
                None => r matches Err(p) && p.status == crate::error::STATUS_BAD_REQUEST && p.detail@
                    == "organization_id is required"@,
                Some(o) => r matches Ok(scope) && scope.0@ == requested_tenant(*caller, tenant_id)
                    && scope.1@ == o && scope.2 == caller.user_id,
            },
        },
{
    let caller = match principal {
        Some(c) => c,
        None => {
            return Err(ApiProblem::unauthorized(String::from_str("authenticated principal is required")));
        },
    };
    let tenant = match named_value(tenant_id) {
        Some(t) => t,
        None => caller.tenant_id.clone(),
    };
    let organization = match named_value(organization_id) {
        Some(o) => o,
        None => match &caller.organization_id {
            Some(o) => o.clone(),
            None => {
                return Err(ApiProblem::bad_request(String::from_str("organization_id is required")));
            },
        },
    };
    Ok((tenant, organization, caller.user_id.clone()))
}

/// The tenant and organization a request acts for.
pub fn resolve_scope(
    principal: Option<&RequestPrincipal>,
    tenant_id: Option<&str>,
    organization_id: Option<&str>,
) -> (r: Result<(String, String), ApiProblem>)
    ensures
        match principal {
            None => r matches Err(p) && p.status == crate::error::STATUS_UNAUTHORIZED && p.detail@
                == "authenticated principal is required"@,
            Some(caller) => match requested_organization(*caller, organization_id) {
                None => r matches Err(p) && p.status == crate::error::STATUS_BAD_REQUEST && p.detail@
                    == "organization_id is required"@,
                Some(o) => r matches Ok(scope) && scope.0@ == requested_tenant(*caller, tenant_id)
                    && scope.1@ == o,
            },
        },
{
    let (tenant, organization, _) = resolve_scope_with_user(principal, tenant_id, organization_id)?;
    Ok((tenant, organization))
}

/// The color a new label takes when none is given.
pub const DEFAULT_LABEL_COLOR: &'static str = "6e7681";

/// The color of a new label: the given one, else the default.
pub fn label_color(color: Option<&str>) -> (r: &str)
    ensures
        r@ == match color {
            Some(c) => c@,
            None => DEFAULT_LABEL_COLOR@,
        },
{
    match color {
        Some(c) => c,
        None => DEFAULT_LABEL_COLOR,
    }
}

// ── OAuth callback ──────────────────────────────────────────────────────

/// Where the browser returns after an OAuth link when nothing is
/// configured.
pub const DEFAULT_OAUTH_SUCCESS_REDIRECT: &'static str = "http://127.0.0.1:5175/integration";

/// Where the OAuth callback sends the browser: the configured return
/// address with `?linked=1` after a link, or with `?linked=0&error=` and
/// the percent-encoded error text after a failure.
pub fn oauth_callback_location(configured: Option<String>, failure: Option<&ServiceError>) -> (r: String)
    ensures
        ({
            let base = match configured {
                Some(v) => v@,
                None => DEFAULT_OAUTH_SUCCESS_REDIRECT@,
            };
            r@ == match failure {
                None => base + "?linked=1"@,
                Some(e) => base + "?linked=0&error="@ + url_encoded(
                    vstd::utf8::encode_utf8(e.display_text()),
                ),
            }
        }),
{
    let mut location = configured_or(configured, DEFAULT_OAUTH_SUCCESS_REDIRECT);
    match failure {
        None => push_text(&mut location, "?linked=1"),
        Some(e) => {
            let text = e.to_display_string();
            let encoded = url_encode(text.as_str());
            push_text(&mut location, "?linked=0&error=");
            push_text(&mut location, encoded.as_str());
        },
    }
    location
}

} // verus!
