use sdkwork_github::domain::CreateTrackerIssueCommand;
use sdkwork_github::error::ServiceError;
use sdkwork_github::rules::{
    check_link_command, check_new_comment, check_new_label, check_new_milestone,
    check_new_roadmap, check_new_tracker_issue, check_oauth_callback, split_full_name,
    validate_scope,
};

fn validation_message(result: Result<(), ServiceError>) -> String {
    match result {
        Err(ServiceError::Validation(message)) => message,
        other => panic!("expected a validation error, got {:?}", other),
    }
}

#[test]
fn rejects_blank_scope() {
    let error = validate_scope("", "org").unwrap_err();
    assert!(matches!(error, ServiceError::Validation(_)));
}

#[test]
fn splits_repository_full_name() {
    let (owner, repo) = split_full_name("sdkwork/demo").unwrap();
    assert_eq!(owner, "sdkwork");
    assert_eq!(repo, "demo");
}

#[test]
fn scope_rule_message_and_whitespace() {
    assert_eq!(
        validation_message(validate_scope("100001", " \t\n")),
        "tenant_id and organization_id are required"
    );
    assert_eq!(
        validation_message(validate_scope("\u{3000}", "0")),
        "tenant_id and organization_id are required"
    );
    assert!(validate_scope("100001", "0").is_ok());
}

#[test]
fn split_full_name_uses_first_slash_and_rejects_blank_sides() {
    let (owner, repo) = split_full_name("a/b/c").unwrap();
    assert_eq!(owner, "a");
    assert_eq!(repo, "b/c");
    for bad in ["noslash", "/repo", "owner/", " /repo", "owner/ \t"] {
        match split_full_name(bad) {
            Err(ServiceError::Validation(message)) => {
                assert_eq!(message, format!("invalid repository full_name: {bad}"))
            }
            other => panic!("expected rejection of {bad}, got {:?}", other),
        }
    }
}

fn issue_command(title: &str, description: &str, issue_type: &str) -> CreateTrackerIssueCommand {
    CreateTrackerIssueCommand {
        title: title.to_string(),
        description: description.to_string(),
        issue_type: issue_type.to_string(),
        priority: None,
        milestone_id: None,
        label_ids: vec![],
    }
}

#[test]
fn new_tracker_issue_rules_in_order() {
    assert!(check_new_tracker_issue("t", "o", &issue_command("Crash", "on start", "bug")).is_ok());
    for kind in ["bug", "feature", "enhancement", "question", "task"] {
        assert!(check_new_tracker_issue("t", "o", &issue_command("x", "y", kind)).is_ok());
    }
    assert_eq!(
        validation_message(check_new_tracker_issue("", "o", &issue_command("", "", "nope"))),
        "tenant_id and organization_id are required"
    );
    assert_eq!(
        validation_message(check_new_tracker_issue("t", "o", &issue_command("  ", "", "nope"))),
        "title is required"
    );
    assert_eq!(
        validation_message(check_new_tracker_issue("t", "o", &issue_command("x", " ", "nope"))),
        "description is required"
    );
    assert_eq!(
        validation_message(check_new_tracker_issue("t", "o", &issue_command("x", "y", "Bug"))),
        "invalid issue type: Bug; expected one of [\"bug\", \"feature\", \"enhancement\", \"question\", \"task\"]"
    );
}

#[test]
fn named_record_rules() {
    assert_eq!(validation_message(check_new_label("t", "o", " ")), "label name is required");
    assert_eq!(
        validation_message(check_new_milestone("t", "o", "")),
        "milestone title is required"
    );
    assert_eq!(
        validation_message(check_new_roadmap("t", "o", "\n")),
        "roadmap title is required"
    );
    assert_eq!(
        validation_message(check_new_roadmap("", "o", "Q3")),
        "tenant_id and organization_id are required"
    );
    assert!(check_new_roadmap("t", "o", "Q3").is_ok());
    assert_eq!(validation_message(check_new_comment("   ")), "content is required");
    assert!(check_new_comment("looks good").is_ok());
    assert_eq!(
        validation_message(check_link_command("t", "o", "")),
        "access_token is required"
    );
    assert!(check_link_command("t", "o", "ghp_x").is_ok());
    assert_eq!(
        validation_message(check_oauth_callback("state", " ")),
        "state and code are required"
    );
    assert!(check_oauth_callback("state", "code").is_ok());
}
