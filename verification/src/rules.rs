//! The service's input rules: tenant scope, repository names and the
//! checks made before tracker records are written.

use vstd::prelude::*;

use crate::domain::CreateTrackerIssueCommand;
use crate::error::{validation_error, ServiceError};
use crate::text::{chars_of, concat2, concat3, is_blank_str, is_blank_text, text_eq};

verus! {

/// The provider key of the GitHub integration.
pub const GITHUB_PROVIDER: &'static str = "github";

/// The outcome a rule check promises: success where no rule is broken, else
/// a validation error with the message of the first broken rule.
pub open spec fn validation_outcome(r: Result<(), ServiceError>, broken: Option<Seq<char>>) -> bool {
    match broken {
        None => r is Ok,
        Some(msg) => r matches Err(ServiceError::Validation(m)) && m@ == msg,
    }
}

/// The message of the tenant scope rule.
pub open spec fn scope_message() -> Seq<char> {
    "tenant_id and organization_id are required"@
}

/// A tenant scope is valid when neither the tenant nor the organization is
/// blank.
pub open spec fn scope_is_valid(tenant_id: Seq<char>, organization_id: Seq<char>) -> bool {
    !is_blank_text(tenant_id) && !is_blank_text(organization_id)
}

/// The first broken scope rule, if any.
pub open spec fn scope_violation(tenant_id: Seq<char>, organization_id: Seq<char>) -> Option<
    Seq<char>,
> {
    if scope_is_valid(tenant_id, organization_id) {
        None
    } else {
        Some(scope_message())
    }
}

/// Rejects a blank tenant or organization.
pub fn validate_scope(tenant_id: &str, organization_id: &str) -> (r: Result<(), ServiceError>)
    ensures
        validation_outcome(r, scope_violation(tenant_id@, organization_id@)),
{
    if is_blank_str(tenant_id) || is_blank_str(organization_id) {
        return Err(validation_error("tenant_id and organization_id are required"));
    }
    Ok(())
}

/// A scope check followed by one more rule: the scope first, then `field`
/// must not be blank, else `message`.
pub open spec fn scope_then_present(
    tenant_id: Seq<char>,
    organization_id: Seq<char>,
    field: Seq<char>,
    message: Seq<char>,
) -> Option<Seq<char>> {
    if !scope_is_valid(tenant_id, organization_id) {
        Some(scope_message())
    } else if is_blank_text(field) {
        Some(message)
    } else {
        None
    }
}

fn check_scope_then_present(
    tenant_id: &str,
    organization_id: &str,
    field: &str,
    message: &str,
) -> (r: Result<(), ServiceError>)
    ensures
        validation_outcome(r, scope_then_present(tenant_id@, organization_id@, field@, message@)),
{
    validate_scope(tenant_id, organization_id)?;
    if is_blank_str(field) {
        return Err(validation_error(message));
    }
    Ok(())
}

/// The rules for linking an account: a valid scope, then an access token.
pub fn check_link_command(tenant_id: &str, organization_id: &str, access_token: &str) -> (r: Result<
    (),
    ServiceError,
>)
    ensures
        validation_outcome(
            r,
            scope_then_present(
                tenant_id@,
                organization_id@,
                access_token@,
                "access_token is required"@,
            ),
        ),
{
    check_scope_then_present(tenant_id, organization_id, access_token, "access_token is required")
}

/// The rules for creating a label: a valid scope, then a name.
pub fn check_new_label(tenant_id: &str, organization_id: &str, name: &str) -> (r: Result<
    (),
    ServiceError,
>)
    ensures
        validation_outcome(
            r,
            scope_then_present(tenant_id@, organization_id@, name@, "label name is required"@),
        ),
{
    check_scope_then_present(tenant_id, organization_id, name, "label name is required")
}

/// The rules for creating a milestone: a valid scope, then a title.
pub fn check_new_milestone(tenant_id: &str, organization_id: &str, title: &str) -> (r: Result<
    (),
    ServiceError,
>)
    ensures
        validation_outcome(
            r,
            scope_then_present(
                tenant_id@,
                organization_id@,
                title@,
                "milestone title is required"@,
            ),
        ),
{
    check_scope_then_present(tenant_id, organization_id, title, "milestone title is required")
}

/// The rules for creating a roadmap: a valid scope, then a title.
pub fn check_new_roadmap(tenant_id: &str, organization_id: &str, title: &str) -> (r: Result<
    (),
    ServiceError,
>)
    ensures
        validation_outcome(
            r,
            scope_then_present(
                tenant_id@,
                organization_id@,
                title@,
                "roadmap title is required"@,
            ),
        ),
{
    check_scope_then_present(tenant_id, organization_id, title, "roadmap title is required")
}

/// The rule for a comment: its content must not be blank.
pub fn check_new_comment(content: &str) -> (r: Result<(), ServiceError>)
    ensures
        validation_outcome(
            r,
            if is_blank_text(content@) {
                Some("content is required"@)
            } else {
                None
            },
        ),
{
    if is_blank_str(content) {
        return Err(validation_error("content is required"));
    }
    Ok(())
}

/// The rule for completing an OAuth link: neither state nor code is blank.
pub fn check_oauth_callback(state: &str, code: &str) -> (r: Result<(), ServiceError>)
    ensures
        validation_outcome(
            r,
            if is_blank_text(state@) || is_blank_text(code@) {
                Some("state and code are required"@)
            } else {
                None
            },
        ),
{
    if is_blank_str(state) || is_blank_str(code) {
        return Err(validation_error("state and code are required"));
    }
    Ok(())
}

/// The kinds a tracker issue may have.
pub open spec fn is_tracker_issue_type(t: Seq<char>) -> bool {
    ||| t == "bug"@
    ||| t == "feature"@
    ||| t == "enhancement"@
    ||| t == "question"@
    ||| t == "task"@
}

/// The message for an issue kind outside the allowed ones.
pub open spec fn invalid_issue_type_message(t: Seq<char>) -> Seq<char> {
    "invalid issue type: "@ + t
        + "; expected one of [\"bug\", \"feature\", \"enhancement\", \"question\", \"task\"]"@
}

/// The first broken rule for a new tracker issue, if any: the scope, then a
/// title, then a description, then an allowed kind.
pub open spec fn new_issue_violation(
    tenant_id: Seq<char>,
    organization_id: Seq<char>,
    command: CreateTrackerIssueCommand,
) -> Option<Seq<char>> {
    if !scope_is_valid(tenant_id, organization_id) {
        Some(scope_message())
    } else if is_blank_text(command.title@) {
        Some("title is required"@)
    } else if is_blank_text(command.description@) {
        Some("description is required"@)
    } else if !is_tracker_issue_type(command.issue_type@) {
        Some(invalid_issue_type_message(command.issue_type@))
    } else {
        None
    }
}

/// Whether `t` is one of the allowed issue kinds.
pub fn tracker_issue_type_allowed(t: &str) -> (b: bool)
    ensures
        b == is_tracker_issue_type(t@),
{
    text_eq(t, "bug") || text_eq(t, "feature") || text_eq(t, "enhancement") || text_eq(
        t,
        "question",
    ) || text_eq(t, "task")
}

/// The rules for creating a tracker issue.
pub fn check_new_tracker_issue(
    tenant_id: &str,
    organization_id: &str,
    command: &CreateTrackerIssueCommand,
) -> (r: Result<(), ServiceError>)
    ensures
        validation_outcome(r, new_issue_violation(tenant_id@, organization_id@, *command)),
{
    validate_scope(tenant_id, organization_id)?;
    if is_blank_str(command.title.as_str()) {
        return Err(validation_error("title is required"));
    }
    if is_blank_str(command.description.as_str()) {
        return Err(validation_error("description is required"));
    }
    if !tracker_issue_type_allowed(command.issue_type.as_str()) {
        let message = concat3(
            "invalid issue type: ",
            command.issue_type.as_str(),
            "; expected one of [\"bug\", \"feature\", \"enhancement\", \"question\", \"task\"]",
        );
        return Err(ServiceError::Validation(message));
    }
    Ok(())
}

// ── Repository full names ───────────────────────────────────────────────

/// `s` split around its first `/`: the text before it and the text after.
pub open spec fn split_at_first_slash(s: Seq<char>) -> Option<(Seq<char>, Seq<char>)>
    decreases s.len(),
{
    if s.len() == 0 {
        None
    } else if s[0] == '/' {
        Some((Seq::empty(), s.drop_first()))
    } else {
        match split_at_first_slash(s.drop_first()) {
            Some(parts) => Some((seq![s[0]] + parts.0, parts.1)),
            None => None,
        }
    }
}

/// The message for a full name that is not `owner/repo`.
pub open spec fn invalid_full_name_message(full_name: Seq<char>) -> Seq<char> {
    "invalid repository full_name: "@ + full_name
}

/// A full name is `owner/repo` when it holds a `/` and neither side of the
/// first one is blank.
pub open spec fn is_owner_repo(full_name: Seq<char>) -> bool {
    match split_at_first_slash(full_name) {
        Some(parts) => !is_blank_text(parts.0) && !is_blank_text(parts.1),
        None => false,
    }
}

proof fn lemma_split_at(s: Seq<char>, i: int)
    requires
        0 <= i < s.len(),
        s[i] == '/',
        forall|j: int| 0 <= j < i ==> #[trigger] s[j] != '/',
    ensures
        split_at_first_slash(s) == Some((s.subrange(0, i), s.subrange(i + 1, s.len() as int))),
    decreases i,
{
    if i == 0 {
        assert(s.drop_first() =~= s.subrange(1, s.len() as int));
        assert(s.subrange(0, 0) =~= Seq::<char>::empty());
    } else {
        let t = s.drop_first();
        assert forall|j: int| 0 <= j < i - 1 implies #[trigger] t[j] != '/' by {
            assert(t[j] == s[j + 1]);
        }
        lemma_split_at(t, i - 1);
        assert(seq![s[0]] + t.subrange(0, i - 1) =~= s.subrange(0, i));
        assert(t.subrange(i, t.len() as int) =~= s.subrange(i + 1, s.len() as int));
    }
}

proof fn lemma_split_none(s: Seq<char>)
    requires
        forall|j: int| 0 <= j < s.len() ==> #[trigger] s[j] != '/',
    ensures
        split_at_first_slash(s) is None,
    decreases s.len(),
{
    if s.len() > 0 {
        let t = s.drop_first();
        assert forall|j: int| 0 <= j < t.len() implies #[trigger] t[j] != '/' by {
            assert(t[j] == s[j + 1]);
        }
        lemma_split_none(t);
    }
}

/// Splits a repository full name `owner/repo` at its first `/`; a name
/// without `/`, or with a blank side, is rejected.
pub fn split_full_name(full_name: &str) -> (r: Result<(&str, &str), ServiceError>)
    ensures
        r is Ok <==> is_owner_repo(full_name@),
        r matches Ok(parts) ==> split_at_first_slash(full_name@) == Some((parts.0@, parts.1@)),
        r matches Err(e) ==> e matches ServiceError::Validation(m) && m@
            == invalid_full_name_message(full_name@),
{
    let cs = chars_of(full_name);
    let n = cs.len();
    let mut i: usize = 0;
    while i < n && cs[i] != '/'
        invariant
            cs@ == full_name@,
            n == cs.len(),
            i <= n,
            forall|j: int| 0 <= j < i ==> #[trigger] full_name@[j] != '/',
        decreases n - i,
    {
        i = i + 1;
    }
    if i == n {
        proof {
            lemma_split_none(full_name@);
        }
        return Err(ServiceError::Validation(concat2("invalid repository full_name: ", full_name)));
    }
    proof {
        lemma_split_at(full_name@, i as int);
    }
    let owner = full_name.substring_char(0, i);
    let repo = full_name.substring_char(i + 1, n);
    if is_blank_str(owner) || is_blank_str(repo) {
        return Err(ServiceError::Validation(concat2("invalid repository full_name: ", full_name)));
    }
    Ok((owner, repo))
}

/// Law: a full name split into owner and repo is the owner, a `/` and the
/// repo, and the owner holds no `/`.
pub proof fn lemma_split_full_name_roundtrip(full_name: Seq<char>)
    requires
        split_at_first_slash(full_name) is Some,
    ensures
        ({
            let parts = split_at_first_slash(full_name)->Some_0;
            &&& parts.0 + seq!['/'] + parts.1 == full_name
            &&& forall|j: int| 0 <= j < parts.0.len() ==> #[trigger] parts.0[j] != '/'
        }),
    decreases full_name.len(),
{
    if full_name[0] == '/' {
        assert(Seq::<char>::empty() + seq!['/'] + full_name.drop_first() =~= full_name);
    } else {
        let t = full_name.drop_first();
        lemma_split_full_name_roundtrip(t);
        let inner = split_at_first_slash(t)->Some_0;
        assert(inner.0 + seq!['/'] + inner.1 == t);
        assert(seq![full_name[0]] + t =~= full_name);
        assert(seq![full_name[0]] + inner.0 + seq!['/'] + inner.1 =~= seq![full_name[0]] + (inner.0
            + seq!['/'] + inner.1));
        let owner = seq![full_name[0]] + inner.0;
        assert forall|j: int| 0 <= j < owner.len() implies #[trigger] owner[j] != '/' by {
            if j > 0 {
                assert(owner[j] == inner.0[j - 1]);
            }
        }
    }
}

} // verus!
