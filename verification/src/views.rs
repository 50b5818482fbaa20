//! Assembly of the API's composite views: plans with their ordered
//! checklists, tracker issues with labels and milestone, and roadmaps with
//! their items.

use vstd::prelude::*;

use crate::domain::{
    copy_opt_string, Page, Plan, PlanItem, PlanItemView, PlanView, TrackerIssue, TrackerIssueView,
    TrackerLabel, TrackerMilestone, TrackerRoadmap, TrackerRoadmapItem, TrackerRoadmapItemView,
    TrackerRoadmapView,
};

verus! {

// ── Ordering checklist entries ──────────────────────────────────────────

/// Entries whose `sort_order` never decreases.
pub open spec fn sorted_by_order(s: Seq<PlanItem>) -> bool {
    forall|i: int, j: int|
        0 <= i < j < s.len() ==> (#[trigger] s[i]).sort_order <= (#[trigger] s[j]).sort_order
}

/// `perm` shows `output` to be `input` reordered by `sort_order`, with
/// entries of equal order kept in their input order: `output[k]` is
/// `input[perm[k]]`, `perm` picks each input position once, `output` is
/// sorted, and equal orders keep their relative positions.
pub open spec fn is_stable_order_perm(
    input: Seq<PlanItem>,
    output: Seq<PlanItem>,
    perm: Seq<int>,
) -> bool {
    &&& perm.len() == input.len()
    &&& output.len() == input.len()
    &&& forall|k: int|
        0 <= k < perm.len() ==> 0 <= #[trigger] perm[k] < input.len() && output[k] == input[perm[k]]
    &&& forall|k: int, l: int| 0 <= k < l < perm.len() ==> #[trigger] perm[k] != #[trigger] perm[l]
    &&& sorted_by_order(output)
    &&& forall|k: int, l: int|
        0 <= k < l < perm.len() && (#[trigger] output[k]).sort_order == (#[trigger] output[l]).sort_order
            ==> perm[k] < perm[l]
}

/// `output` is the stable sort of `input` by `sort_order`.
pub open spec fn is_stable_order_sort(input: Seq<PlanItem>, output: Seq<PlanItem>) -> bool {
    exists|perm: Seq<int>| is_stable_order_perm(input, output, perm)
}

/// Sorts checklist entries by `sort_order`; entries of equal order keep
/// their relative order.
pub fn sort_plan_items(items: Vec<PlanItem>) -> (out: Vec<PlanItem>)
    ensures
        is_stable_order_sort(items@, out@),
{
    let ghost input = items@;
    let mut rest = items;
    let mut out: Vec<PlanItem> = Vec::new();
    let ghost mut perm: Seq<int> = Seq::empty();
    let n = rest.len();
    let mut i: usize = 0;
    while i < n
        invariant
            n == input.len(),
            i <= n,
            rest@ == input.skip(i as int),
            out@.len() == i,
            perm.len() == i,
            forall|k: int| 0 <= k < i ==> 0 <= #[trigger] perm[k] < i && out@[k] == input[perm[k]],
            forall|k: int, l: int| 0 <= k < l < i ==> #[trigger] perm[k] != #[trigger] perm[l],
            sorted_by_order(out@),
            forall|k: int, l: int|
                0 <= k < l < i && (#[trigger] out@[k]).sort_order == (#[trigger] out@[l]).sort_order
                    ==> perm[k] < perm[l],
        decreases n - i,
    {
        assert(rest@[0] == input[i as int]);
        let x = rest.remove(0);
        assert(rest@ =~= input.skip(i + 1));
        let key = x.sort_order;
        let mut p: usize = 0;
        while p < out.len() && out[p].sort_order <= key
            invariant
                p <= out@.len(),
                forall|k: int| 0 <= k < p ==> (#[trigger] out@[k]).sort_order <= key,
            decreases out@.len() - p,
        {
            p = p + 1;
        }
        let ghost old_out = out@;
        let ghost old_perm = perm;
        proof {
            assert forall|k: int| p <= k < old_out.len() implies (#[trigger] old_out[k]).sort_order
                > key by {
                assert(old_out[p as int].sort_order > key);
                if k > p {
                    assert(old_out[p as int].sort_order <= old_out[k].sort_order);
                }
            }
        }
        out.insert(p, x);
        proof {
            perm = old_perm.insert(p as int, i as int);
            assert(out@ == old_out.insert(p as int, x));
            assert forall|k: int| 0 <= k < i + 1 implies 0 <= #[trigger] perm[k] < i + 1
                && out@[k] == input[perm[k]] by {
                if k < p {
                    assert(perm[k] == old_perm[k]);
                } else if k > p {
                    assert(perm[k] == old_perm[k - 1]);
                }
            }
            assert forall|k: int, l: int| 0 <= k < l < i + 1 implies #[trigger] perm[k]
                != #[trigger] perm[l] by {
                if k < p && l < p {
                    assert(old_perm[k] != old_perm[l]);
                } else if k > p && l > p {
                    assert(old_perm[k - 1] != old_perm[l - 1]);
                } else if k < p && l > p {
                    assert(old_perm[k] != old_perm[l - 1]);
                } else if k == p {
                    assert(old_perm[l - 1] < i);
                } else {
                    assert(old_perm[k] < i);
                }
            }
            assert forall|k: int, l: int| 0 <= k < l < out@.len() implies (#[trigger] out@[k]).sort_order
                <= (#[trigger] out@[l]).sort_order by {
                if k < p && l < p {
                } else if k > p && l > p {
                    assert(old_out[k - 1].sort_order <= old_out[l - 1].sort_order);
                } else if k < p && l > p {
                    assert(old_out[k].sort_order <= key);
                    assert(old_out[l - 1].sort_order > key);
                } else if k == p {
                    assert(old_out[l - 1].sort_order > key);
                } else {
                    assert(old_out[k].sort_order <= key);
                }
            }
            assert forall|k: int, l: int|
                0 <= k < l < i + 1 && (#[trigger] out@[k]).sort_order == (#[trigger] out@[l]).sort_order
                implies perm[k] < perm[l] by {
                if k < p && l < p {
                    assert(old_out[k].sort_order == old_out[l].sort_order);
                } else if k > p && l > p {
                    assert(old_out[k - 1].sort_order == old_out[l - 1].sort_order);
                } else if k < p && l > p {
                    assert(old_out[k].sort_order <= key);
                    assert(old_out[l - 1].sort_order > key);
                } else if k == p {
                    assert(old_out[l - 1].sort_order > key);
                } else {
                    assert(old_perm[k] < i);
                }
            }
        }
        i = i + 1;
    }
    proof {
        assert(is_stable_order_perm(input, out@, perm));
    }
    out
}


// ── Plans with their checklists ─────────────────────────────────────────

/// The entries among `items` that belong to the plan `plan_id`, in order.
pub open spec fn plan_group(items: Seq<PlanItem>, plan_id: Seq<char>) -> Seq<PlanItem>
    decreases items.len(),
{
    if items.len() == 0 {
        Seq::empty()
    } else {
        let rest = plan_group(items.drop_last(), plan_id);
        if items.last().plan_id@ == plan_id {
            rest.push(items.last())
        } else {
            rest
        }
    }
}

/// The view of each entry, in order.
pub open spec fn item_views(items: Seq<PlanItem>) -> Seq<PlanItemView> {
    items.map_values(|item: PlanItem| PlanItemView::of(item))
}

/// Position `k` is the first one among `plans` that holds its id.
pub open spec fn first_plan_position(plans: Seq<Plan>, k: int) -> bool {
    forall|j: int| 0 <= j < k ==> (#[trigger] plans[j]).id@ != plans[k].id@
}

/// The entries a plan's view shows, before ordering: the plan's own entries
/// where the plan is the first of the page with its id, none otherwise.
pub open spec fn plan_entries(plans: Seq<Plan>, items: Seq<PlanItem>, k: int) -> Seq<PlanItem> {
    if first_plan_position(plans, k) {
        plan_group(items, plans[k].id@)
    } else {
        Seq::empty()
    }
}

/// `view` shows `plan` with `entries` ordered stably by `sort_order`.
pub open spec fn shows_plan(view: PlanView, plan: Plan, entries: Seq<PlanItem>) -> bool {
    &&& view.id == plan.id
    &&& view.title == plan.title
    &&& view.status == plan.status
    &&& view.repository_id == plan.repository_id
    &&& exists|sorted: Seq<PlanItem>|
        is_stable_order_sort(entries, sorted) && view.items@ == item_views(sorted)
}

impl PlanItem {
    /// A copy of the entry.
    pub fn duplicate(&self) -> (r: PlanItem)
        ensures
            r == *self,
    {
        PlanItem {
            id: self.id.clone(),
            plan_id: self.plan_id.clone(),
            title: self.title.clone(),
            status: self.status.clone(),
            sort_order: self.sort_order,
            issue_id: copy_opt_string(&self.issue_id),
            created_at: self.created_at,
            updated_at: self.updated_at,
        }
    }
}

impl PlanView {
    /// The view of `plan` showing `items` in the given order.
    pub fn from_plan(plan: Plan, items: Vec<PlanItem>) -> (v: PlanView)
        ensures
            v.id == plan.id,
            v.title == plan.title,
            v.status == plan.status,
            v.repository_id == plan.repository_id,
            v.items@ == item_views(items@),
    {
        let ghost input = items@;
        let mut rest = items;
        let mut views: Vec<PlanItemView> = Vec::new();
        let n = rest.len();
        let mut i: usize = 0;
        while i < n
            invariant
                n == input.len(),
                i <= n,
                rest@ == input.skip(i as int),
                views@ == item_views(input.take(i as int)),
            decreases n - i,
        {
            assert(rest@[0] == input[i as int]);
            let item = rest.remove(0);
            assert(rest@ =~= input.skip(i + 1));
            views.push(PlanItemView::from_item(item));
            assert(input.take(i + 1) =~= input.take(i as int).push(input[i as int]));
            assert(views@ =~= item_views(input.take(i + 1)));
            i = i + 1;
        }
        assert(input.take(n as int) =~= input);
        PlanView {
            id: plan.id,
            title: plan.title,
            status: plan.status,
            repository_id: plan.repository_id,
            items: views,
        }
    }
}

/// The ids of the plans, in order.
pub fn plan_ids(plans: &Vec<Plan>) -> (ids: Vec<String>)
    ensures
        ids@.len() == plans@.len(),
        forall|k: int| 0 <= k < ids@.len() ==> #[trigger] ids@[k] == plans@[k].id,
{
    let mut ids: Vec<String> = Vec::new();
    let mut i: usize = 0;
    while i < plans.len()
        invariant
            i <= plans@.len(),
            ids@.len() == i,
            forall|k: int| 0 <= k < i ==> #[trigger] ids@[k] == plans@[k].id,
        decreases plans@.len() - i,
    {
        ids.push(plans[i].id.clone());
        i = i + 1;
    }
    ids
}

/// The entries among `items` that belong to the plan `plan_id`, copied.
pub fn collect_plan_group(items: &Vec<PlanItem>, plan_id: &String) -> (g: Vec<PlanItem>)
    ensures
        g@ == plan_group(items@, plan_id@),
{
    let mut g: Vec<PlanItem> = Vec::new();
    let mut i: usize = 0;
    while i < items.len()
        invariant
            i <= items@.len(),
            g@ == plan_group(items@.take(i as int), plan_id@),
        decreases items@.len() - i,
    {
        assert(items@.take(i + 1).drop_last() =~= items@.take(i as int));
        if items[i].plan_id == *plan_id {
            g.push(items[i].duplicate());
        }
        i = i + 1;
    }
    assert(items@.take(items@.len() as int) =~= items@);
    g
}

/// Whether some plan before position `k` has the id of the plan at `k`.
fn plan_id_seen_before(plans: &Vec<Plan>, k: usize) -> (seen: bool)
    requires
        k < plans@.len(),
    ensures
        seen == !first_plan_position(plans@, k as int),
{
    let mut j: usize = 0;
    while j < k
        invariant
            k < plans@.len(),
            j <= k,
            forall|i: int| 0 <= i < j ==> (#[trigger] plans@[i]).id@ != plans@[k as int].id@,
        decreases k - j,
    {
        if plans[j].id == plans[k].id {
            return true;
        }
        j = j + 1;
    }
    false
}

impl Plan {
    /// A copy of the plan.
    pub fn duplicate(&self) -> (r: Plan)
        ensures
            r == *self,
    {
        Plan {
            id: self.id.clone(),
            tenant_id: self.tenant_id.clone(),
            organization_id: self.organization_id.clone(),
            repository_id: copy_opt_string(&self.repository_id),
            title: self.title.clone(),
            status: self.status.clone(),
            created_at: self.created_at,
            updated_at: self.updated_at,
        }
    }
}

/// Turns a page of plans and the checklist entries of those plans into the
/// page of plan views: each plan shows its own entries ordered by
/// `sort_order`, entries of equal order in the order they came; a plan whose
/// id already occurred earlier on the page shows none. The paging fields
/// are kept.
pub fn assemble_plan_page(page: Page<Plan>, items: Vec<PlanItem>) -> (r: Page<PlanView>)
    ensures
        r.page == page.page,
        r.page_size == page.page_size,
        r.total == page.total,
        r.items@.len() == page.items@.len(),
        forall|k: int|
            0 <= k < r.items@.len() ==> shows_plan(
                #[trigger] r.items@[k],
                page.items@[k],
                plan_entries(page.items@, items@, k),
            ),
{
    let plans = &page.items;
    let mut views: Vec<PlanView> = Vec::new();
    let mut k: usize = 0;
    while k < plans.len()
        invariant
            plans == &page.items,
            k <= plans@.len(),
            views@.len() == k,
            forall|j: int|
                0 <= j < k ==> shows_plan(
                    #[trigger] views@[j],
                    plans@[j],
                    plan_entries(plans@, items@, j),
                ),
        decreases plans@.len() - k,
    {
        let group = if plan_id_seen_before(plans, k) {
            Vec::new()
        } else {
            collect_plan_group(&items, &plans[k].id)
        };
        assert(group@ == plan_entries(plans@, items@, k as int));
        let ghost entries = group@;
        let sorted = sort_plan_items(group);
        let ghost sorted_seq = sorted@;
        let view = PlanView::from_plan(plans[k].duplicate(), sorted);
        assert(shows_plan(view, plans@[k as int], entries));
        views.push(view);
        k = k + 1;
    }
    Page { items: views, page: page.page, page_size: page.page_size, total: page.total }
}

// ── Tracker issues with labels and milestone ────────────────────────────

/// The labels paired with the issue `issue_id`, in pair order.
pub open spec fn labels_for(pairs: Seq<(String, TrackerLabel)>, issue_id: Seq<char>) -> Seq<
    TrackerLabel,
>
    decreases pairs.len(),
{
    if pairs.len() == 0 {
        Seq::empty()
    } else {
        let rest = labels_for(pairs.drop_last(), issue_id);
        if pairs.last().0@ == issue_id {
            rest.push(pairs.last().1)
        } else {
            rest
        }
    }
}

/// The labels of the pairs, whatever issue each names, in order.
pub open spec fn pair_labels(pairs: Seq<(String, TrackerLabel)>) -> Seq<TrackerLabel> {
    pairs.map_values(|p: (String, TrackerLabel)| p.1)
}

/// The milestone found last for `milestone_id` among the fetched ones.
pub open spec fn milestone_lookup(
    found: Seq<(String, TrackerMilestone)>,
    milestone_id: Seq<char>,
) -> Option<TrackerMilestone>
    decreases found.len(),
{
    if found.len() == 0 {
        None
    } else if found.last().0@ == milestone_id {
        Some(found.last().1)
    } else {
        milestone_lookup(found.drop_last(), milestone_id)
    }
}

/// The milestone an issue's view shows: the one found for its milestone id.
pub open spec fn issue_milestone(
    issue: TrackerIssue,
    found: Seq<(String, TrackerMilestone)>,
) -> Option<TrackerMilestone> {
    match issue.milestone_id {
        Some(mid) => milestone_lookup(found, mid@),
        None => None,
    }
}

/// Position `k` is the first one among `issues` that holds its id.
pub open spec fn first_issue_position(issues: Seq<TrackerIssue>, k: int) -> bool {
    forall|j: int| 0 <= j < k ==> (#[trigger] issues[j]).id@ != issues[k].id@
}

/// The milestone ids of the issues that have one, in order.
pub open spec fn milestone_ids_of(issues: Seq<TrackerIssue>) -> Seq<String>
    decreases issues.len(),
{
    if issues.len() == 0 {
        Seq::empty()
    } else {
        let rest = milestone_ids_of(issues.drop_last());
        match issues.last().milestone_id {
            Some(mid) => rest.push(mid),
            None => rest,
        }
    }
}

/// The ids of the issues, in order.
pub fn tracker_issue_ids(issues: &Vec<TrackerIssue>) -> (ids: Vec<String>)
    ensures
        ids@.len() == issues@.len(),
        forall|k: int| 0 <= k < ids@.len() ==> #[trigger] ids@[k] == issues@[k].id,
{
    let mut ids: Vec<String> = Vec::new();
    let mut i: usize = 0;
    while i < issues.len()
        invariant
            i <= issues@.len(),
            ids@.len() == i,
            forall|k: int| 0 <= k < i ==> #[trigger] ids@[k] == issues@[k].id,
        decreases issues@.len() - i,
    {
        ids.push(issues[i].id.clone());
        i = i + 1;
    }
    ids
}

/// The milestone ids of the issues that have one, in order; the milestones
/// a listing looks up.
pub fn tracker_milestone_ids(issues: &Vec<TrackerIssue>) -> (ids: Vec<String>)
    ensures
        ids@ == milestone_ids_of(issues@),
{
    let mut ids: Vec<String> = Vec::new();
    let mut i: usize = 0;
    while i < issues.len()
        invariant
            i <= issues@.len(),
            ids@ == milestone_ids_of(issues@.take(i as int)),
        decreases issues@.len() - i,
    {
        assert(issues@.take(i + 1).drop_last() =~= issues@.take(i as int));
        match &issues[i].milestone_id {
            Some(mid) => ids.push(mid.clone()),
            None => {},
        }
        i = i + 1;
    }
    assert(issues@.take(issues@.len() as int) =~= issues@);
    ids
}

/// The labels paired with the issue `issue_id`, copied, in pair order.
pub fn collect_labels_for(pairs: &Vec<(String, TrackerLabel)>, issue_id: &String) -> (labels: Vec<
    TrackerLabel,
>)
    ensures
        labels@ == labels_for(pairs@, issue_id@),
{
    let mut labels: Vec<TrackerLabel> = Vec::new();
    let mut i: usize = 0;
    while i < pairs.len()
        invariant
            i <= pairs@.len(),
            labels@ == labels_for(pairs@.take(i as int), issue_id@),
        decreases pairs@.len() - i,
    {
        assert(pairs@.take(i + 1).drop_last() =~= pairs@.take(i as int));
        if pairs[i].0 == *issue_id {
            labels.push(pairs[i].1.duplicate());
        }
        i = i + 1;
    }
    assert(pairs@.take(pairs@.len() as int) =~= pairs@);
    labels
}

/// The milestone found last for `milestone_id`, copied.
pub fn find_milestone(found: &Vec<(String, TrackerMilestone)>, milestone_id: &String) -> (m: Option<
    TrackerMilestone,
>)
    ensures
        m == milestone_lookup(found@, milestone_id@),
{
    let mut i: usize = found.len();
    assert(found@.take(i as int) =~= found@);
    while i > 0
        invariant
            i <= found@.len(),
            milestone_lookup(found@, milestone_id@) == milestone_lookup(
                found@.take(i as int),
                milestone_id@,
            ),
        decreases i,
    {
        let ghost prefix = found@.take(i as int);
        assert(prefix.drop_last() =~= found@.take(i - 1));
        assert(prefix.last() == found@[i - 1]);
        if found[i - 1].0 == *milestone_id {
            return Some(found[i - 1].1.duplicate());
        }
        i = i - 1;
    }
    None
}

/// The labels of all pairs, in order: the labels of one issue's detail.
pub fn labels_of_pairs(pairs: Vec<(String, TrackerLabel)>) -> (labels: Vec<TrackerLabel>)
    ensures
        labels@ == pair_labels(pairs@),
{
    let ghost input = pairs@;
    let mut rest = pairs;
    let mut labels: Vec<TrackerLabel> = Vec::new();
    let n = rest.len();
    let mut i: usize = 0;
    while i < n
        invariant
            n == input.len(),
            i <= n,
            rest@ == input.skip(i as int),
            labels@ == pair_labels(input.take(i as int)),
        decreases n - i,
    {
        assert(rest@[0] == input[i as int]);
        let (_, label) = rest.remove(0);
        assert(rest@ =~= input.skip(i + 1));
        labels.push(label);
        assert(input.take(i + 1) =~= input.take(i as int).push(input[i as int]));
        assert(labels@ =~= pair_labels(input.take(i + 1)));
        i = i + 1;
    }
    assert(input.take(n as int) =~= input);
    labels
}

/// `view` shows `issue` with the labels the listing gives it and the
/// milestone found for it.
pub open spec fn shows_issue(
    view: TrackerIssueView,
    issues: Seq<TrackerIssue>,
    k: int,
    pairs: Seq<(String, TrackerLabel)>,
    found: Seq<(String, TrackerMilestone)>,
) -> bool {
    &&& view.issue == issues[k]
    &&& view.labels@ == (if first_issue_position(issues, k) {
        labels_for(pairs, issues[k].id@)
    } else {
        Seq::empty()
    })
    &&& view.milestone == issue_milestone(issues[k], found)
}

/// Whether some id before position `k` equals the id at `k`.
fn id_seen_before(ids: &Vec<String>, k: usize) -> (seen: bool)
    requires
        k < ids@.len(),
    ensures
        seen == exists|j: int| 0 <= j < k && (#[trigger] ids@[j])@ == ids@[k as int]@,
{
    let mut j: usize = 0;
    while j < k
        invariant
            k < ids@.len(),
            j <= k,
            forall|i: int| 0 <= i < j ==> (#[trigger] ids@[i])@ != ids@[k as int]@,
        decreases k - j,
    {
        if ids[j] == ids[k] {
            return true;
        }
        j = j + 1;
    }
    false
}

/// Turns a page of tracker issues, the label pairs of those issues and the
/// milestones found for their milestone ids into the page of issue views:
/// each issue shows the labels paired with its id (an issue whose id
/// already occurred earlier on the page shows none) and the milestone found
/// last for its milestone id. The paging fields are kept.
pub fn assemble_issue_page(
    page: Page<TrackerIssue>,
    pairs: Vec<(String, TrackerLabel)>,
    found: Vec<(String, TrackerMilestone)>,
) -> (r: Page<TrackerIssueView>)
    ensures
        r.page == page.page,
        r.page_size == page.page_size,
        r.total == page.total,
        r.items@.len() == page.items@.len(),
        forall|k: int|
            0 <= k < r.items@.len() ==> shows_issue(
                #[trigger] r.items@[k],
                page.items@,
                k,
                pairs@,
                found@,
            ),
{
    let ghost issues = page.items@;
    let ids = tracker_issue_ids(&page.items);
    let mut rest = page.items;
    let mut views: Vec<TrackerIssueView> = Vec::new();
    let n = rest.len();
    let mut k: usize = 0;
    while k < n
        invariant
            n == issues.len(),
            k <= n,
            ids@.len() == n,
            forall|j: int| 0 <= j < n ==> #[trigger] ids@[j] == issues[j].id,
            rest@ == issues.skip(k as int),
            views@.len() == k,
            forall|j: int|
                0 <= j < k ==> shows_issue(#[trigger] views@[j], issues, j, pairs@, found@),
        decreases n - k,
    {
        assert(rest@[0] == issues[k as int]);
        let issue = rest.remove(0);
        assert(rest@ =~= issues.skip(k + 1));
        let seen = id_seen_before(&ids, k);
        proof {
            if seen {
                let j = choose|j: int| 0 <= j < k && (#[trigger] ids@[j])@ == ids@[k as int]@;
                assert(issues[j].id@ == issues[k as int].id@);
            } else {
                assert forall|j: int| 0 <= j < k implies (#[trigger] issues[j]).id@
                    != issues[k as int].id@ by {
                    assert(ids@[j] == issues[j].id);
                }
            }
        }
        let labels = if seen {
            Vec::new()
        } else {
            collect_labels_for(&pairs, &ids[k])
        };
        let milestone = match &issue.milestone_id {
            Some(mid) => find_milestone(&found, mid),
            None => None,
        };
        let view = TrackerIssueView { issue, labels, milestone };
        views.push(view);
        k = k + 1;
    }
    Page { items: views, page: page.page, page_size: page.page_size, total: page.total }
}

/// The view of one tracker issue: all labels of the pairs fetched for it,
/// and its milestone as fetched.
pub fn assemble_issue_detail(
    issue: TrackerIssue,
    pairs: Vec<(String, TrackerLabel)>,
    milestone: Option<TrackerMilestone>,
) -> (v: TrackerIssueView)
    ensures
        v.issue == issue,
        v.labels@ == pair_labels(pairs@),
        v.milestone == milestone,
{
    TrackerIssueView { issue, labels: labels_of_pairs(pairs), milestone }
}

// ── Roadmaps with their items ───────────────────────────────────────────

/// Position `k` is the first item of the roadmap that places its issue.
pub open spec fn first_item_position(items: Seq<TrackerRoadmapItem>, k: int) -> bool {
    forall|j: int| 0 <= j < k ==> (#[trigger] items[j]).issue_id@ != items[k].issue_id@
}

/// `view` shows the roadmap item at `k` with its issue and the labels of
/// that issue (none where an earlier item placed the same issue).
pub open spec fn shows_roadmap_item(
    view: TrackerRoadmapItemView,
    items: Seq<TrackerRoadmapItem>,
    issues: Seq<TrackerIssue>,
    k: int,
    pairs: Seq<(String, TrackerLabel)>,
) -> bool {
    &&& view.item == items[k]
    &&& view.issue == issues[k]
    &&& view.labels@ == (if first_item_position(items, k) {
        labels_for(pairs, items[k].issue_id@)
    } else {
        Seq::empty()
    })
}

/// The issue ids the roadmap's items place, in item order.
pub fn roadmap_issue_ids(items: &Vec<TrackerRoadmapItem>) -> (ids: Vec<String>)
    ensures
        ids@.len() == items@.len(),
        forall|k: int| 0 <= k < ids@.len() ==> #[trigger] ids@[k] == items@[k].issue_id,
{
    let mut ids: Vec<String> = Vec::new();
    let mut i: usize = 0;
    while i < items.len()
        invariant
            i <= items@.len(),
            ids@.len() == i,
            forall|k: int| 0 <= k < i ==> #[trigger] ids@[k] == items@[k].issue_id,
        decreases items@.len() - i,
    {
        ids.push(items[i].issue_id.clone());
        i = i + 1;
    }
    ids
}

/// Turns a roadmap, its items, the issue each item places (`issues[k]` for
/// `items[k]`) and the label pairs of those issues into the roadmap view.
pub fn assemble_roadmap_view(
    roadmap: TrackerRoadmap,
    items: Vec<TrackerRoadmapItem>,
    issues: Vec<TrackerIssue>,
    pairs: Vec<(String, TrackerLabel)>,
) -> (v: TrackerRoadmapView)
    requires
        issues@.len() == items@.len(),
    ensures
        v.roadmap == roadmap,
        v.items@.len() == items@.len(),
        forall|k: int|
            0 <= k < v.items@.len() ==> shows_roadmap_item(
                #[trigger] v.items@[k],
                items@,
                issues@,
                k,
                pairs@,
            ),
{
    let ghost all_items = items@;
    let ghost all_issues = issues@;
    let ids = roadmap_issue_ids(&items);
    let mut rest_items = items;
    let mut rest_issues = issues;
    let mut views: Vec<TrackerRoadmapItemView> = Vec::new();
    let n = rest_items.len();
    let mut k: usize = 0;
    while k < n
        invariant
            n == all_items.len(),
            all_issues.len() == n,
            k <= n,
            ids@.len() == n,
            forall|j: int| 0 <= j < n ==> #[trigger] ids@[j] == all_items[j].issue_id,
            rest_items@ == all_items.skip(k as int),
            rest_issues@ == all_issues.skip(k as int),
            views@.len() == k,
            forall|j: int|
                0 <= j < k ==> shows_roadmap_item(
                    #[trigger] views@[j],
                    all_items,
                    all_issues,
                    j,
                    pairs@,
                ),
        decreases n - k,
    {
        assert(rest_items@[0] == all_items[k as int]);
        assert(rest_issues@[0] == all_issues[k as int]);
        let item = rest_items.remove(0);
        let issue = rest_issues.remove(0);
        assert(rest_items@ =~= all_items.skip(k + 1));
        assert(rest_issues@ =~= all_issues.skip(k + 1));
        let seen = id_seen_before(&ids, k);
        proof {
            if seen {
                let j = choose|j: int| 0 <= j < k && (#[trigger] ids@[j])@ == ids@[k as int]@;
                assert(all_items[j].issue_id@ == all_items[k as int].issue_id@);
            } else {
                assert forall|j: int| 0 <= j < k implies (#[trigger] all_items[j]).issue_id@
                    != all_items[k as int].issue_id@ by {
                    assert(ids@[j] == all_items[j].issue_id);
                }
            }
        }
        let labels = if seen {
            Vec::new()
        } else {
            collect_labels_for(&pairs, &ids[k])
        };
        views.push(TrackerRoadmapItemView { item, issue, labels });
        k = k + 1;
    }
    TrackerRoadmapView { roadmap, items: views }
}

} // verus!
