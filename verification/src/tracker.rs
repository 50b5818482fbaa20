//! The tracker's new records: fresh identifiers under their prefixes, the
//! defaults a created record starts with, and the errors of missing ones.

use vstd::prelude::*;

use crate::domain::{
    copy_opt_string, CreateTrackerRoadmapItemCommand, TrackerLabel, TrackerMilestone,
    TrackerRoadmap, TrackerRoadmapItem,
};
use crate::error::ServiceError;
use crate::integration::{is_record_id, new_record_id};
use crate::text::concat3;

verus! {

/// The prefix of tracker issue ids.
pub const TRACKER_ISSUE_ID_PREFIX: &'static str = "tracker-issue-";

/// The prefix of tracker comment ids.
pub const TRACKER_COMMENT_ID_PREFIX: &'static str = "tracker-comment-";

/// The prefix of tracker vote ids.
pub const TRACKER_VOTE_ID_PREFIX: &'static str = "tracker-vote-";

/// The prefix of tracker label ids.
pub const TRACKER_LABEL_ID_PREFIX: &'static str = "tracker-label-";

/// The prefix of tracker milestone ids.
pub const TRACKER_MILESTONE_ID_PREFIX: &'static str = "tracker-milestone-";

/// The prefix of tracker roadmap ids.
pub const TRACKER_ROADMAP_ID_PREFIX: &'static str = "tracker-roadmap-";

/// The prefix of tracker roadmap item ids.
pub const TRACKER_ROADMAP_ITEM_ID_PREFIX: &'static str = "tracker-roadmap-item-";

/// The optional text of an optional borrowed text.
pub open spec fn opt_text(o: Option<&str>) -> Option<Seq<char>> {
    match o {
        Some(s) => Some(s@),
        None => None,
    }
}

/// The optional text of an optional string.
pub open spec fn opt_string_text(o: Option<String>) -> Option<Seq<char>> {
    match o {
        Some(s) => Some(s@),
        None => None,
    }
}

/// An owned copy of an optional borrowed text.
fn owned(o: Option<&str>) -> (r: Option<String>)
    ensures
        opt_string_text(r) == opt_text(o),
{
    match o {
        Some(s) => Some(String::from_str(s)),
        None => None,
    }
}

/// The priority a new tracker issue is filed with: the requested one, else
/// `medium`.
pub fn new_issue_priority(priority: &Option<String>) -> (r: &str)
    ensures
        r@ == match priority {
            Some(p) => p@,
            None => "medium"@,
        },
{
    match priority {
        Some(p) => p.as_str(),
        None => {
            let d = "medium";
            proof {
                reveal_strlit("medium");
            }
            d
        },
    }
}

/// A new label: a fresh id, the given name, color and description.
pub fn new_tracker_label(name: &str, color: &str, description: Option<&str>) -> (l: TrackerLabel)
    ensures
        is_record_id(l.id@, TRACKER_LABEL_ID_PREFIX@),
        l.name@ == name@,
        l.color@ == color@,
        opt_string_text(l.description) == opt_text(description),
{
    TrackerLabel {
        id: new_record_id(TRACKER_LABEL_ID_PREFIX),
        name: String::from_str(name),
        color: String::from_str(color),
        description: owned(description),
    }
}

/// A new milestone: a fresh id, open, with the given title, description and
/// due date.
pub fn new_tracker_milestone(title: &str, description: Option<&str>, due_date: Option<&str>) -> (m:
    TrackerMilestone)
    ensures
        is_record_id(m.id@, TRACKER_MILESTONE_ID_PREFIX@),
        m.title@ == title@,
        opt_string_text(m.description) == opt_text(description),
        m.status@ == "open"@,
        opt_string_text(m.due_date) == opt_text(due_date),
{
    TrackerMilestone {
        id: new_record_id(TRACKER_MILESTONE_ID_PREFIX),
        title: String::from_str(title),
        description: owned(description),
        status: String::from_str("open"),
        due_date: owned(due_date),
    }
}

/// A new roadmap: a fresh id, active, with the given title, description and
/// dates.
pub fn new_tracker_roadmap(
    title: &str,
    description: Option<&str>,
    start_date: Option<&str>,
    target_date: Option<&str>,
) -> (r: TrackerRoadmap)
    ensures
        is_record_id(r.id@, TRACKER_ROADMAP_ID_PREFIX@),
        r.title@ == title@,
        opt_string_text(r.description) == opt_text(description),
        r.status@ == "active"@,
        opt_string_text(r.start_date) == opt_text(start_date),
        opt_string_text(r.target_date) == opt_text(target_date),
{
    TrackerRoadmap {
        id: new_record_id(TRACKER_ROADMAP_ID_PREFIX),
        title: String::from_str(title),
        description: owned(description),
        status: String::from_str("active"),
        start_date: owned(start_date),
        target_date: owned(target_date),
    }
}

/// The order a roadmap item is placed at: the requested one, else 0.
pub open spec fn item_sort_order(command: CreateTrackerRoadmapItemCommand) -> i32 {
    match command.sort_order {
        Some(o) => o,
        None => 0,
    }
}

/// A new roadmap item: a fresh id, the command's issue, track and dates, on
/// `roadmap_id`, at the requested order or 0.
pub fn new_roadmap_item(roadmap_id: &str, command: &CreateTrackerRoadmapItemCommand) -> (item:
    TrackerRoadmapItem)
    ensures
        is_record_id(item.id@, TRACKER_ROADMAP_ITEM_ID_PREFIX@),
        item.roadmap_id@ == roadmap_id@,
        item.issue_id == command.issue_id,
        item.track == command.track,
        item.start_date == command.start_date,
        item.target_date == command.target_date,
        item.sort_order == item_sort_order(*command),
{
    let sort_order: i32 = match command.sort_order {
        Some(o) => o,
        None => 0,
    };
    TrackerRoadmapItem {
        id: new_record_id(TRACKER_ROADMAP_ITEM_ID_PREFIX),
        roadmap_id: String::from_str(roadmap_id),
        issue_id: command.issue_id.clone(),
        track: copy_opt_string(&command.track),
        start_date: copy_opt_string(&command.start_date),
        target_date: copy_opt_string(&command.target_date),
        sort_order,
    }
}

/// Whether a user's vote count on an issue shows a vote.
pub fn vote_recorded(count: i64) -> (b: bool)
    ensures
        b == (count > 0),
{
    count > 0
}

/// The error of a tracker issue that is not in the scope.
pub fn tracker_issue_not_found(issue_id: &str) -> (e: ServiceError)
    ensures
        e matches ServiceError::NotFound(m) && m@ == "tracker issue "@ + issue_id@ + " not found"@,
{
    ServiceError::NotFound(concat3("tracker issue ", issue_id, " not found"))
}

/// The error of a roadmap that is not in the scope.
pub fn roadmap_not_found(roadmap_id: &str) -> (e: ServiceError)
    ensures
        e matches ServiceError::NotFound(m) && m@ == "roadmap "@ + roadmap_id@ + " not found"@,
{
    ServiceError::NotFound(concat3("roadmap ", roadmap_id, " not found"))
}

/// What an issue update does to the issue's labels.
pub enum LabelChange {
    /// The labels stay as they are.
    Keep,
    /// The labels become exactly these.
    Replace(Vec<String>),
}

/// The label change of an issue update, given how many issues of the scope
/// the keyed update changed: the requested labels replace the issue's only
/// where the issue is in the caller's scope (one row updated). An issue
/// outside the scope, or an update that names no labels, keeps its labels.
pub fn label_change(rows_updated: u64, label_ids: Option<Vec<String>>) -> (c: LabelChange)
    ensures
        match label_ids {
            Some(ls) => if rows_updated > 0 {
                c matches LabelChange::Replace(v) && v@ == ls@
            } else {
                c is Keep
            },
            None => c is Keep,
        },
{
    match label_ids {
        Some(ls) => if rows_updated > 0 {
            LabelChange::Replace(ls)
        } else {
            LabelChange::Keep
        },
        None => LabelChange::Keep,
    }
}

} // verus!
