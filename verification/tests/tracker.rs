use sdkwork_github::tracker::{label_change, LabelChange};
use sdkwork_github::domain::CreateTrackerRoadmapItemCommand;
use sdkwork_github::error::ServiceError;
use sdkwork_github::tracker::{
    new_issue_priority, new_roadmap_item, new_tracker_label, new_tracker_milestone,
    new_tracker_roadmap, roadmap_not_found, tracker_issue_not_found, vote_recorded,
    TRACKER_LABEL_ID_PREFIX,
};

fn is_uuid_suffix(id: &str, prefix: &str) -> bool {
    let rest = &id[prefix.len()..];
    id.starts_with(prefix)
        && rest.len() == 36
        && rest.chars().enumerate().all(|(i, c)| {
            if [8, 13, 18, 23].contains(&i) {
                c == '-'
            } else {
                c.is_ascii_hexdigit() && !c.is_ascii_uppercase()
            }
        })
}

#[test]
fn new_records_get_fresh_prefixed_ids_and_defaults() {
    let label = new_tracker_label("bug", "d73a4a", Some("Something is broken"));
    assert!(is_uuid_suffix(&label.id, TRACKER_LABEL_ID_PREFIX));
    assert_eq!(label.name, "bug");
    assert_eq!(label.description.as_deref(), Some("Something is broken"));
    let other = new_tracker_label("bug", "d73a4a", None);
    assert_ne!(label.id, other.id);

    let milestone = new_tracker_milestone("v1.0", None, Some("2025-01-01"));
    assert!(is_uuid_suffix(&milestone.id, "tracker-milestone-"));
    assert_eq!(milestone.status, "open");
    assert_eq!(milestone.due_date.as_deref(), Some("2025-01-01"));

    let roadmap = new_tracker_roadmap("2025", Some("plan"), None, Some("2025-12-31"));
    assert!(is_uuid_suffix(&roadmap.id, "tracker-roadmap-"));
    assert_eq!(roadmap.status, "active");
    assert_eq!(roadmap.start_date, None);

    let placed = new_roadmap_item(
        &roadmap.id,
        &CreateTrackerRoadmapItemCommand {
            issue_id: "ti-1".into(),
            track: Some("core".into()),
            start_date: None,
            target_date: None,
            sort_order: None,
        },
    );
    assert!(is_uuid_suffix(&placed.id, "tracker-roadmap-item-"));
    assert_eq!(placed.roadmap_id, roadmap.id);
    assert_eq!(placed.sort_order, 0);
    let ordered = new_roadmap_item(
        "r",
        &CreateTrackerRoadmapItemCommand {
            issue_id: "ti-2".into(),
            track: None,
            start_date: None,
            target_date: None,
            sort_order: Some(7),
        },
    );
    assert_eq!(ordered.sort_order, 7);
}

#[test]
fn priorities_votes_and_missing_records() {
    assert_eq!(new_issue_priority(&None), "medium");
    assert_eq!(new_issue_priority(&Some("high".into())), "high");
    assert!(!vote_recorded(0));
    assert!(vote_recorded(2));
    match tracker_issue_not_found("ti-9") {
        ServiceError::NotFound(m) => assert_eq!(m, "tracker issue ti-9 not found"),
        other => panic!("unexpected {other:?}"),
    }
    match roadmap_not_found("r-1") {
        ServiceError::NotFound(m) => assert_eq!(m, "roadmap r-1 not found"),
        other => panic!("unexpected {other:?}"),
    }
}

#[test]
fn labels_change_only_for_an_issue_in_scope() {
    let wanted = Some(vec!["l1".to_string(), "l2".to_string()]);
    match label_change(1, wanted.clone()) {
        LabelChange::Replace(ls) => assert_eq!(ls, vec!["l1", "l2"]),
        LabelChange::Keep => panic!("an issue in scope takes the requested labels"),
    }
    assert!(matches!(label_change(0, wanted), LabelChange::Keep));
    assert!(matches!(label_change(1, None), LabelChange::Keep));
    assert!(matches!(label_change(1, Some(Vec::new())), LabelChange::Replace(ls) if ls.is_empty()));
}
