//! Construction of the tracker store's SQL statements: numbered
//! placeholders, filter and assignment lists with their bind values in the
//! same order, paging offsets, and the listing order.

use vstd::prelude::*;

use crate::domain::{copy_opt_string, MilestoneProgress, TrackerIssueQuery, UpdateTrackerIssueCommand};
use crate::text::{concat2, concat3, decimal, push_decimal, push_text, text_eq};

verus! {

/// The placeholder numbered `k`: `$k`.
pub open spec fn placeholder(k: nat) -> Seq<char> {
    "$"@ + decimal(k)
}

/// The placeholder numbered `idx`.
pub fn ph(idx: usize) -> (r: String)
    ensures
        r@ == placeholder(idx as nat),
{
    let mut s = String::from_str("$");
    push_decimal(&mut s, idx as u64);
    s
}

/// `parts` joined with `sep` between consecutive parts.
pub open spec fn joined(parts: Seq<Seq<char>>, sep: Seq<char>) -> Seq<char>
    decreases parts.len(),
{
    if parts.len() == 0 {
        Seq::empty()
    } else if parts.len() == 1 {
        parts[0]
    } else {
        joined(parts.drop_last(), sep) + sep + parts.last()
    }
}

/// The texts of the strings, in order.
pub open spec fn texts(parts: Seq<String>) -> Seq<Seq<char>> {
    parts.map_values(|p: String| p@)
}

/// Joins the parts with `sep` between consecutive parts.
pub fn join(parts: &Vec<String>, sep: &str) -> (r: String)
    ensures
        r@ == joined(texts(parts@), sep@),
{
    let mut r = String::new();
    let mut i: usize = 0;
    while i < parts.len()
        invariant
            i <= parts@.len(),
            r@ == joined(texts(parts@.take(i as int)), sep@),
        decreases parts@.len() - i,
    {
        assert(texts(parts@.take(i + 1)).drop_last() =~= texts(parts@.take(i as int)));
        assert(texts(parts@.take(i + 1)).last() == parts@[i as int]@);
        if i > 0 {
            r.append(sep);
        }
        r.append(parts[i].as_str());
        i = i + 1;
    }
    assert(parts@.take(parts@.len() as int) =~= parts@);
    r
}

/// Each prefix followed by its placeholder, numbered from `start`.
pub open spec fn numbered(prefixes: Seq<Seq<char>>, start: nat) -> Seq<Seq<char>> {
    Seq::new(prefixes.len(), |k: int| prefixes[k] + placeholder((start + k) as nat))
}

/// Each prefix followed by its placeholder, numbered from `start`.
pub fn number_parts(prefixes: &Vec<String>, start: usize) -> (parts: Vec<String>)
    requires
        start + prefixes@.len() <= usize::MAX,
    ensures
        texts(parts@) == numbered(texts(prefixes@), start as nat),
{
    let mut parts: Vec<String> = Vec::new();
    let mut i: usize = 0;
    while i < prefixes.len()
        invariant
            start + prefixes@.len() <= usize::MAX,
            i <= prefixes@.len(),
            parts@.len() == i,
            forall|k: int|
                0 <= k < i ==> (#[trigger] parts@[k])@ == prefixes@[k]@ + placeholder(
                    (start + k) as nat,
                ),
        decreases prefixes@.len() - i,
    {
        let p = ph(start + i);
        parts.push(concat2(prefixes[i].as_str(), p.as_str()));
        i = i + 1;
    }
    assert(texts(parts@) =~= numbered(texts(prefixes@), start as nat));
    parts
}

/// The row offset of a page (pages count from 1; page 0 reads as page 1).
pub open spec fn page_offset_value(page: u32, page_size: u32) -> int {
    (if page == 0 {
        0
    } else {
        page - 1
    }) * page_size
}

/// The row offset of a page; the product must fit the page arithmetic.
pub fn page_offset(page: u32, page_size: u32) -> (offset: i64)
    requires
        page_offset_value(page, page_size) <= u32::MAX,
    ensures
        offset == page_offset_value(page, page_size),
{
    let before = page.saturating_sub(1);
    assert(before as int * page_size as int == page_offset_value(page, page_size));
    (before * page_size) as i64
}

// ── Tracker issue listing ───────────────────────────────────────────────

/// The columns a tracker issue row is read with.
pub const TRACKER_ISSUE_COLUMNS: &'static str = "id, title, description, type, status, priority, submitted_by, assignee_id, milestone_id, github_issue_id, vote_count, comment_count, created_at, updated_at";

/// The filter of a tracker issue listing: each condition's text before its
/// placeholder, paired with the value bound to it, in order. The tenant
/// scope comes first; the label filter is not applied.
pub open spec fn issue_filter(
    tenant_id: Seq<char>,
    organization_id: Seq<char>,
    query: TrackerIssueQuery,
) -> Seq<(Seq<char>, Seq<char>)> {
    seq![("tenant_id = "@, tenant_id), ("organization_id = "@, organization_id)]
        + optional_condition("type = "@, query.issue_type) + optional_condition(
        "status = "@,
        query.status,
    ) + optional_condition("priority = "@, query.priority) + optional_condition(
        "milestone_id = "@,
        query.milestone_id,
    ) + match query.q {
        Some(q) => seq![("title LIKE "@, "%"@ + q@ + "%"@)],
        None => Seq::empty(),
    }
}

/// The order of a tracker issue listing for the requested sort.
pub open spec fn issue_order(sort: Option<Seq<char>>) -> Seq<char> {
    match sort {
        Some(s) => if s == "oldest"@ {
            "created_at ASC"@
        } else if s == "most_voted"@ {
            "vote_count DESC, created_at DESC"@
        } else if s == "most_commented"@ {
            "comment_count DESC, created_at DESC"@
        } else {
            "created_at DESC"@
        },
        None => "created_at DESC"@,
    }
}

/// The two statements of a tracker issue listing and the values bound to
/// the filter's placeholders. The listing statement binds the limit and the
/// offset after them.
pub struct TrackerIssueListStatement {
    pub count_sql: String,
    pub select_sql: String,
    pub binds: Vec<String>,
}

/// A condition on an optional filter value: present where the value is.
pub open spec fn optional_condition(prefix: Seq<char>, value: Option<String>) -> Seq<
    (Seq<char>, Seq<char>),
> {
    match value {
        Some(v) => seq![(prefix, v@)],
        None => Seq::empty(),
    }
}

/// The condition texts before their placeholders.
pub open spec fn condition_prefixes(conditions: Seq<(Seq<char>, Seq<char>)>) -> Seq<Seq<char>> {
    conditions.map_values(|c: (Seq<char>, Seq<char>)| c.0)
}

/// The values bound to the conditions.
pub open spec fn condition_values(conditions: Seq<(Seq<char>, Seq<char>)>) -> Seq<Seq<char>> {
    conditions.map_values(|c: (Seq<char>, Seq<char>)| c.1)
}

/// Adds the condition `prefix` bound to `value`.
fn add_condition(
    prefixes: &mut Vec<String>,
    binds: &mut Vec<String>,
    prefix: &str,
    value: String,
    Ghost(acc): Ghost<Seq<(Seq<char>, Seq<char>)>>,
)
    requires
        texts(old(prefixes)@) == condition_prefixes(acc),
        texts(old(binds)@) == condition_values(acc),
    ensures
        texts(final(prefixes)@) == condition_prefixes(acc.push((prefix@, value@))),
        texts(final(binds)@) == condition_values(acc.push((prefix@, value@))),
        final(binds)@.len() == old(binds)@.len() + 1,
{
    let ghost v = value@;
    let p = String::from_str(prefix);
    let ghost old_prefixes = prefixes@;
    let ghost old_binds = binds@;
    prefixes.push(p);
    binds.push(value);
    assert(texts(prefixes@) =~= texts(old_prefixes).push(prefix@));
    assert(texts(binds@) =~= texts(old_binds).push(v));
    assert(condition_prefixes(acc.push((prefix@, v))) =~= condition_prefixes(acc).push(prefix@));
    assert(condition_values(acc.push((prefix@, v))) =~= condition_values(acc).push(v));
}

/// Adds the condition `prefix` where the filter value is present.
fn add_optional_condition(
    prefixes: &mut Vec<String>,
    binds: &mut Vec<String>,
    prefix: &str,
    value: &Option<String>,
    Ghost(acc): Ghost<Seq<(Seq<char>, Seq<char>)>>,
)
    requires
        texts(old(prefixes)@) == condition_prefixes(acc),
        texts(old(binds)@) == condition_values(acc),
    ensures
        texts(final(prefixes)@) == condition_prefixes(acc + optional_condition(prefix@, *value)),
        texts(final(binds)@) == condition_values(acc + optional_condition(prefix@, *value)),
        final(binds)@.len() <= old(binds)@.len() + 1,
{
    match value {
        Some(v) => {
            add_condition(prefixes, binds, prefix, v.clone(), Ghost(acc));
            assert(acc.push((prefix@, v@)) =~= acc + optional_condition(prefix@, *value));
        },
        None => {
            assert(acc =~= acc + optional_condition(prefix@, *value));
        },
    }
}

/// The filter's condition texts and bound values, in order.
fn issue_filter_parts(tenant_id: &str, organization_id: &str, query: &TrackerIssueQuery) -> (r: (
    Vec<String>,
    Vec<String>,
))
    ensures
        texts(r.0@) == condition_prefixes(issue_filter(tenant_id@, organization_id@, *query)),
        texts(r.1@) == condition_values(issue_filter(tenant_id@, organization_id@, *query)),
        r.1@.len() <= 7,
{
    let mut prefixes: Vec<String> = Vec::new();
    let mut binds: Vec<String> = Vec::new();
    let ghost a0 = Seq::<(Seq<char>, Seq<char>)>::empty();
    assert(texts(prefixes@) =~= condition_prefixes(a0));
    assert(texts(binds@) =~= condition_values(a0));
    add_condition(&mut prefixes, &mut binds, "tenant_id = ", String::from_str(tenant_id), Ghost(a0));
    let ghost a1 = a0.push(("tenant_id = "@, tenant_id@));
    add_condition(
        &mut prefixes,
        &mut binds,
        "organization_id = ",
        String::from_str(organization_id),
        Ghost(a1),
    );
    let ghost a2 = a1.push(("organization_id = "@, organization_id@));
    assert(a2 =~= seq![("tenant_id = "@, tenant_id@), ("organization_id = "@, organization_id@)]);
    add_optional_condition(&mut prefixes, &mut binds, "type = ", &query.issue_type, Ghost(a2));
    let ghost a3 = a2 + optional_condition("type = "@, query.issue_type);
    add_optional_condition(&mut prefixes, &mut binds, "status = ", &query.status, Ghost(a3));
    let ghost a4 = a3 + optional_condition("status = "@, query.status);
    add_optional_condition(&mut prefixes, &mut binds, "priority = ", &query.priority, Ghost(a4));
    let ghost a5 = a4 + optional_condition("priority = "@, query.priority);
    add_optional_condition(
        &mut prefixes,
        &mut binds,
        "milestone_id = ",
        &query.milestone_id,
        Ghost(a5),
    );
    let ghost a6 = a5 + optional_condition("milestone_id = "@, query.milestone_id);
    match &query.q {
        Some(q) => {
            add_condition(&mut prefixes, &mut binds, "title LIKE ", concat3("%", q.as_str(), "%"), Ghost(a6));
        },
        None => {},
    }
    proof {
        let tail = match &query.q {
            Some(q) => seq![("title LIKE "@, "%"@ + q@ + "%"@)],
            None => Seq::empty(),
        };
        let f = issue_filter(tenant_id@, organization_id@, *query);
        assert(f =~= a6 + tail);
        if query.q is None {
            assert(a6 + tail =~= a6);
        } else {
            assert(a6 + tail =~= a6.push(tail[0]));
        }
    }
    (prefixes, binds)
}

/// The order clause for the requested sort.
pub fn issue_order_clause(sort: &Option<String>) -> (r: &'static str)
    ensures
        r@ == issue_order(
            match sort {
                Some(s) => Some(s@),
                None => None,
            },
        ),
{
    match sort {
        Some(s) => if text_eq(s.as_str(), "oldest") {
            "created_at ASC"
        } else if text_eq(s.as_str(), "most_voted") {
            "vote_count DESC, created_at DESC"
        } else if text_eq(s.as_str(), "most_commented") {
            "comment_count DESC, created_at DESC"
        } else {
            "created_at DESC"
        },
        None => "created_at DESC",
    }
}

/// The statements listing a scope's tracker issues under a query: the
/// conditions of [`issue_filter`] numbered `$1`, `$2`, … and joined with
/// `AND`; the limit and offset take the next two placeholders.
pub fn tracker_issue_list_statement(
    tenant_id: &str,
    organization_id: &str,
    query: &TrackerIssueQuery,
) -> (st: TrackerIssueListStatement)
    ensures
        ({
            let filter = issue_filter(tenant_id@, organization_id@, *query);
            let conditions = numbered(condition_prefixes(filter), 1);
            let where_sql = joined(conditions, " AND "@);
            let n = filter.len();
            &&& texts(st.binds@) == condition_values(filter)
            &&& st.count_sql@ == "SELECT COUNT(*) FROM github_tracker_issue WHERE "@ + where_sql
            &&& st.select_sql@ == "SELECT "@ + TRACKER_ISSUE_COLUMNS@
                + " FROM github_tracker_issue WHERE "@ + where_sql + " ORDER BY "@ + issue_order(
                match query.sort {
                    Some(s) => Some(s@),
                    None => None,
                },
            ) + " LIMIT "@ + placeholder((n + 1) as nat) + " OFFSET "@ + placeholder(
                (n + 2) as nat,
            )
        }),
{
    let (prefixes, binds) = issue_filter_parts(tenant_id, organization_id, query);
    let ghost filter = issue_filter(tenant_id@, organization_id@, *query);
    let conditions = number_parts(&prefixes, 1);
    let where_sql = join(&conditions, " AND ");
    let n = binds.len();
    assert(texts(binds@).len() == n);
    assert(condition_values(filter).len() == filter.len());
    assert(n == filter.len());
    let count_sql = concat2("SELECT COUNT(*) FROM github_tracker_issue WHERE ", where_sql.as_str());
    let mut select_sql = String::from_str("SELECT ");
    push_text(&mut select_sql, TRACKER_ISSUE_COLUMNS);
    push_text(&mut select_sql, " FROM github_tracker_issue WHERE ");
    push_text(&mut select_sql, where_sql.as_str());
    push_text(&mut select_sql, " ORDER BY ");
    push_text(&mut select_sql, issue_order_clause(&query.sort));
    push_text(&mut select_sql, " LIMIT ");
    push_text(&mut select_sql, ph(n + 1).as_str());
    push_text(&mut select_sql, " OFFSET ");
    push_text(&mut select_sql, ph(n + 2).as_str());
    assert(where_sql@ == joined(numbered(condition_prefixes(filter), 1), " AND "@));
    assert(select_sql@ =~= "SELECT "@ + TRACKER_ISSUE_COLUMNS@ + " FROM github_tracker_issue WHERE "@
        + where_sql@ + " ORDER BY "@ + issue_order(
        match query.sort {
            Some(s) => Some(s@),
            None => None,
        },
    ) + " LIMIT "@ + placeholder((n + 1) as nat) + " OFFSET "@ + placeholder((n + 2) as nat));
    TrackerIssueListStatement { count_sql, select_sql, binds }
}

/// Law: a tracker issue listing is confined to the caller's scope and binds
/// each filter value to its own placeholder: the tenant condition is `$1`
/// bound to the tenant, the organization condition `$2` bound to the
/// organization, and every condition `k` ends in `$(k+1)` and binds the
/// value of that condition.
pub proof fn lemma_issue_listing_scoped(
    tenant_id: Seq<char>,
    organization_id: Seq<char>,
    query: TrackerIssueQuery,
)
    ensures
        ({
            let f = issue_filter(tenant_id, organization_id, query);
            let conditions = numbered(condition_prefixes(f), 1);
            let values = condition_values(f);
            &&& f.len() >= 2
            &&& conditions[0] == "tenant_id = "@ + placeholder(1)
            &&& values[0] == tenant_id
            &&& conditions[1] == "organization_id = "@ + placeholder(2)
            &&& values[1] == organization_id
            &&& conditions.len() == values.len()
            &&& forall|k: int|
                0 <= k < f.len() ==> #[trigger] conditions[k] == f[k].0 + placeholder((k + 1) as nat)
                    && values[k] == f[k].1
        }),
{
}

// ── Listings of repositories, issues and plans ─────────────────────────

/// The tenant scope every listing filters by: the tenant, then the
/// organization.
pub open spec fn scope_filter(tenant_id: Seq<char>, organization_id: Seq<char>) -> Seq<
    (Seq<char>, Seq<char>),
> {
    seq![("tenant_id = "@, tenant_id), ("organization_id = "@, organization_id)]
}

/// The filter's conditions numbered from `$1` and joined with `AND`.
pub open spec fn where_clause(filter: Seq<(Seq<char>, Seq<char>)>) -> Seq<char> {
    joined(numbered(condition_prefixes(filter), 1), " AND "@)
}

/// The statement counting the rows of `table` under the filter.
pub open spec fn count_statement(table: Seq<char>, filter: Seq<(Seq<char>, Seq<char>)>) -> Seq<
    char,
> {
    "SELECT COUNT(*) FROM "@ + table + " WHERE "@ + where_clause(filter)
}

/// The statement reading one page of `table` under the filter in the given
/// order; the limit and the offset take the two placeholders after the
/// filter's.
pub open spec fn page_statement(
    columns: Seq<char>,
    table: Seq<char>,
    filter: Seq<(Seq<char>, Seq<char>)>,
    order: Seq<char>,
) -> Seq<char> {
    "SELECT "@ + columns + " FROM "@ + table + " WHERE "@ + where_clause(filter) + " ORDER BY "@
        + order + " LIMIT "@ + placeholder((filter.len() + 1) as nat) + " OFFSET "@ + placeholder(
        (filter.len() + 2) as nat,
    )
}

/// The two statements of a listing and the values bound to the filter's
/// placeholders; the page statement binds the limit and the offset after
/// them.
pub struct ListingStatement {
    pub count_sql: String,
    pub select_sql: String,
    pub binds: Vec<String>,
}

/// `st` lists `table` under the filter in the given order.
pub open spec fn is_listing(
    st: ListingStatement,
    columns: Seq<char>,
    table: Seq<char>,
    filter: Seq<(Seq<char>, Seq<char>)>,
    order: Seq<char>,
) -> bool {
    &&& st.count_sql@ == count_statement(table, filter)
    &&& st.select_sql@ == page_statement(columns, table, filter, order)
    &&& texts(st.binds@) == condition_values(filter)
}

/// The columns a repository row is read with.
pub const REPOSITORY_COLUMNS: &'static str = "id, tenant_id, organization_id, full_name, owner, description, default_branch, html_url, is_private, created_at, updated_at";

/// The columns an issue row is read with.
pub const ISSUE_COLUMNS: &'static str = "id, tenant_id, organization_id, repository_id, number, title, state, html_url, created_at, updated_at";

/// The columns a plan row is read with.
pub const PLAN_COLUMNS: &'static str = "id, tenant_id, organization_id, repository_id, title, status, created_at, updated_at";

/// The scope's conditions and their bound values.
fn scope_parts(tenant_id: &str, organization_id: &str) -> (r: (Vec<String>, Vec<String>))
    ensures
        texts(r.0@) == condition_prefixes(scope_filter(tenant_id@, organization_id@)),
        texts(r.1@) == condition_values(scope_filter(tenant_id@, organization_id@)),
        r.1@.len() == 2,
{
    let mut prefixes: Vec<String> = Vec::new();
    let mut binds: Vec<String> = Vec::new();
    let ghost a0 = Seq::<(Seq<char>, Seq<char>)>::empty();
    assert(texts(prefixes@) =~= condition_prefixes(a0));
    assert(texts(binds@) =~= condition_values(a0));
    add_condition(&mut prefixes, &mut binds, "tenant_id = ", String::from_str(tenant_id), Ghost(a0));
    let ghost a1 = a0.push(("tenant_id = "@, tenant_id@));
    add_condition(
        &mut prefixes,
        &mut binds,
        "organization_id = ",
        String::from_str(organization_id),
        Ghost(a1),
    );
    assert(a1.push(("organization_id = "@, organization_id@)) =~= scope_filter(
        tenant_id@,
        organization_id@,
    ));
    (prefixes, binds)
}

/// Builds a listing of `table` from the filter's conditions and values.
fn listing_statement(
    columns: &str,
    table: &str,
    prefixes: Vec<String>,
    binds: Vec<String>,
    order: &str,
    Ghost(filter): Ghost<Seq<(Seq<char>, Seq<char>)>>,
) -> (st: ListingStatement)
    requires
        texts(prefixes@) == condition_prefixes(filter),
        texts(binds@) == condition_values(filter),
        binds@.len() <= 16,
    ensures
        is_listing(st, columns@, table@, filter, order@),
{
    let n = binds.len();
    assert(texts(binds@).len() == n);
    assert(condition_values(filter).len() == filter.len());
    assert(texts(prefixes@).len() == prefixes@.len());
    assert(condition_prefixes(filter).len() == filter.len());
    let conditions = number_parts(&prefixes, 1);
    let where_sql = join(&conditions, " AND ");
    let mut count_sql = String::from_str("SELECT COUNT(*) FROM ");
    push_text(&mut count_sql, table);
    push_text(&mut count_sql, " WHERE ");
    push_text(&mut count_sql, where_sql.as_str());
    let mut select_sql = String::from_str("SELECT ");
    push_text(&mut select_sql, columns);
    push_text(&mut select_sql, " FROM ");
    push_text(&mut select_sql, table);
    push_text(&mut select_sql, " WHERE ");
    push_text(&mut select_sql, where_sql.as_str());
    push_text(&mut select_sql, " ORDER BY ");
    push_text(&mut select_sql, order);
    push_text(&mut select_sql, " LIMIT ");
    push_text(&mut select_sql, ph(n + 1).as_str());
    push_text(&mut select_sql, " OFFSET ");
    push_text(&mut select_sql, ph(n + 2).as_str());
    assert(count_sql@ =~= count_statement(table@, filter));
    assert(select_sql@ =~= page_statement(columns@, table@, filter, order@));
    ListingStatement { count_sql, select_sql, binds }
}

/// The listing of a scope's repositories, most recently updated first.
pub fn repository_list_statement(tenant_id: &str, organization_id: &str) -> (st: ListingStatement)
    ensures
        is_listing(
            st,
            REPOSITORY_COLUMNS@,
            "github_repository"@,
            scope_filter(tenant_id@, organization_id@),
            "updated_at DESC"@,
        ),
{
    let (prefixes, binds) = scope_parts(tenant_id, organization_id);
    listing_statement(
        REPOSITORY_COLUMNS,
        "github_repository",
        prefixes,
        binds,
        "updated_at DESC",
        Ghost(scope_filter(tenant_id@, organization_id@)),
    )
}

/// The listing of a scope's plans, most recently updated first.
pub fn plan_list_statement(tenant_id: &str, organization_id: &str) -> (st: ListingStatement)
    ensures
        is_listing(
            st,
            PLAN_COLUMNS@,
            "github_plan"@,
            scope_filter(tenant_id@, organization_id@),
            "updated_at DESC"@,
        ),
{
    let (prefixes, binds) = scope_parts(tenant_id, organization_id);
    listing_statement(
        PLAN_COLUMNS,
        "github_plan",
        prefixes,
        binds,
        "updated_at DESC",
        Ghost(scope_filter(tenant_id@, organization_id@)),
    )
}

/// The filter of an issue listing: the scope, then the repository where one
/// is asked for.
pub open spec fn issue_list_filter(
    tenant_id: Seq<char>,
    organization_id: Seq<char>,
    repository_id: Option<Seq<char>>,
) -> Seq<(Seq<char>, Seq<char>)> {
    scope_filter(tenant_id, organization_id) + match repository_id {
        Some(r) => seq![("repository_id = "@, r)],
        None => Seq::empty(),
    }
}

/// The order of an issue listing: by number, highest first, within one
/// repository; most recently updated first across the scope.
pub open spec fn issue_list_order(repository_id: Option<Seq<char>>) -> Seq<char> {
    if repository_id is Some {
        "number DESC"@
    } else {
        "updated_at DESC"@
    }
}

/// The listing of a scope's issues, of one repository where one is asked
/// for.
pub fn issue_list_statement(tenant_id: &str, organization_id: &str, repository_id: Option<&str>) -> (st:
    ListingStatement)
    ensures
        is_listing(
            st,
            ISSUE_COLUMNS@,
            "github_issue"@,
            issue_list_filter(tenant_id@, organization_id@, opt_str_text(repository_id)),
            issue_list_order(opt_str_text(repository_id)),
        ),
{
    let (mut prefixes, mut binds) = scope_parts(tenant_id, organization_id);
    let ghost scope = scope_filter(tenant_id@, organization_id@);
    let ghost filter = issue_list_filter(tenant_id@, organization_id@, opt_str_text(repository_id));
    let order = match repository_id {
        Some(r) => {
            add_condition(&mut prefixes, &mut binds, "repository_id = ", String::from_str(r), Ghost(scope));
            assert(scope.push(("repository_id = "@, r@)) =~= filter);
            "number DESC"
        },
        None => {
            assert(scope =~= filter);
            "updated_at DESC"
        },
    };
    proof {
        reveal_strlit("number DESC");
        reveal_strlit("updated_at DESC");
    }
    listing_statement(ISSUE_COLUMNS, "github_issue", prefixes, binds, order, Ghost(filter))
}

/// Law: the listings of repositories, issues and plans are confined to the
/// caller's scope and bind each filter value to its own placeholder: the
/// tenant condition is `$1` bound to the tenant, the organization condition
/// `$2` bound to the organization, and every condition `k` ends in `$(k+1)`
/// and binds the value of that condition.
pub proof fn lemma_listing_scoped(
    tenant_id: Seq<char>,
    organization_id: Seq<char>,
    extra: Seq<(Seq<char>, Seq<char>)>,
)
    ensures
        ({
            let f = scope_filter(tenant_id, organization_id) + extra;
            let conditions = numbered(condition_prefixes(f), 1);
            let values = condition_values(f);
            &&& conditions[0] == "tenant_id = "@ + placeholder(1)
            &&& values[0] == tenant_id
            &&& conditions[1] == "organization_id = "@ + placeholder(2)
            &&& values[1] == organization_id
            &&& conditions.len() == values.len()
            &&& forall|k: int|
                0 <= k < f.len() ==> #[trigger] conditions[k] == f[k].0 + placeholder((k + 1) as nat)
                    && values[k] == f[k].1
        }),
{
}

// ── Keyed updates ───────────────────────────────────────────────────────

/// A value bound to a placeholder: a text, or a text that may be NULL.
#[derive(Clone, Debug)]
pub enum SqlValue {
    Text(String),
    NullableText(Option<String>),
}

/// What a bound value holds.
pub enum SqlValueView {
    Text(Seq<char>),
    NullableText(Option<Seq<char>>),
}

/// The text of an optional string.
pub open spec fn opt_text(o: Option<String>) -> Option<Seq<char>> {
    match o {
        Some(s) => Some(s@),
        None => None,
    }
}

/// The text of an optional string slice.
pub open spec fn opt_str_text(o: Option<&str>) -> Option<Seq<char>> {
    match o {
        Some(s) => Some(s@),
        None => None,
    }
}

impl SqlValue {
    /// What the value holds.
    pub open spec fn value_view(self) -> SqlValueView {
        match self {
            SqlValue::Text(s) => SqlValueView::Text(s@),
            SqlValue::NullableText(o) => SqlValueView::NullableText(opt_text(o)),
        }
    }
}

/// What each bound value holds, in order.
pub open spec fn value_views(values: Seq<SqlValue>) -> Seq<SqlValueView> {
    values.map_values(|v: SqlValue| v.value_view())
}

/// An assignment of a new text where one is given.
pub open spec fn text_assignment(column: Seq<char>, value: Option<Seq<char>>) -> Seq<
    (Seq<char>, SqlValueView),
> {
    match value {
        Some(v) => seq![(column, SqlValueView::Text(v))],
        None => Seq::empty(),
    }
}

/// An assignment of a new text or NULL where one is given.
pub open spec fn nullable_assignment(column: Seq<char>, value: Option<Option<Seq<char>>>) -> Seq<
    (Seq<char>, SqlValueView),
> {
    match value {
        Some(v) => seq![(column, SqlValueView::NullableText(v))],
        None => Seq::empty(),
    }
}

/// The assigned columns' texts before their placeholders.
pub open spec fn assignment_columns(assignments: Seq<(Seq<char>, SqlValueView)>) -> Seq<Seq<char>> {
    assignments.map_values(|a: (Seq<char>, SqlValueView)| a.0)
}

/// The values the assignments bind.
pub open spec fn assignment_values(assignments: Seq<(Seq<char>, SqlValueView)>) -> Seq<
    SqlValueView,
> {
    assignments.map_values(|a: (Seq<char>, SqlValueView)| a.1)
}

/// A keyed update: the assignments numbered from `$1` and joined with
/// commas, then the row's id and tenant scope on the next three
/// placeholders.
pub open spec fn keyed_update_sql(table: Seq<char>, assignments: Seq<(Seq<char>, SqlValueView)>) -> Seq<
    char,
> {
    let n = assignments.len();
    "UPDATE "@ + table + " SET "@ + joined(numbered(assignment_columns(assignments), 1), ", "@)
        + " WHERE id = "@ + placeholder((n + 1) as nat) + " AND tenant_id = "@ + placeholder(
        (n + 2) as nat,
    ) + " AND organization_id = "@ + placeholder((n + 3) as nat)
}

/// The values a keyed update binds: the assignments' values, then the id,
/// tenant and organization.
pub open spec fn keyed_update_values(
    assignments: Seq<(Seq<char>, SqlValueView)>,
    id: Seq<char>,
    tenant_id: Seq<char>,
    organization_id: Seq<char>,
) -> Seq<SqlValueView> {
    assignment_values(assignments) + seq![
        SqlValueView::Text(id),
        SqlValueView::Text(tenant_id),
        SqlValueView::Text(organization_id),
    ]
}

/// Law: a keyed update touches only the row with the given id in the given
/// scope, and binds every value to its own placeholder: assignment `k` ends
/// in `$(k+1)` and binds the assignment's value; the id, tenant and
/// organization take the three placeholders after the assignments.
pub proof fn lemma_keyed_update_scoped(
    table: Seq<char>,
    assignments: Seq<(Seq<char>, SqlValueView)>,
    id: Seq<char>,
    tenant_id: Seq<char>,
    organization_id: Seq<char>,
)
    ensures
        ({
            let n = assignments.len();
            let values = keyed_update_values(assignments, id, tenant_id, organization_id);
            let sets = numbered(assignment_columns(assignments), 1);
            &&& values.len() == n + 3
            &&& values[n as int] == SqlValueView::Text(id)
            &&& values[n as int + 1] == SqlValueView::Text(tenant_id)
            &&& values[n as int + 2] == SqlValueView::Text(organization_id)
            &&& keyed_update_sql(table, assignments) == "UPDATE "@ + table + " SET "@ + joined(
                sets,
                ", "@,
            ) + " WHERE id = "@ + placeholder((n + 1) as nat) + " AND tenant_id = "@
                + placeholder((n + 2) as nat) + " AND organization_id = "@ + placeholder(
                (n + 3) as nat,
            )
            &&& forall|k: int|
                0 <= k < n ==> #[trigger] sets[k] == assignments[k].0 + placeholder(
                    (k + 1) as nat,
                ) && values[k] == assignments[k].1
        }),
{
}

/// An update statement and the values bound to its placeholders, in order.
pub struct UpdateStatement {
    pub sql: String,
    pub binds: Vec<SqlValue>,
}

/// The pieces of an update being built.
struct Assignments {
    columns: Vec<String>,
    values: Vec<SqlValue>,
}

impl Assignments {
    spec fn holds(self, acc: Seq<(Seq<char>, SqlValueView)>) -> bool {
        &&& texts(self.columns@) == assignment_columns(acc)
        &&& value_views(self.values@) == assignment_values(acc)
        &&& self.values@.len() == acc.len()
    }

    fn new() -> (a: Assignments)
        ensures
            a.holds(Seq::empty()),
    {
        let a = Assignments { columns: Vec::new(), values: Vec::new() };
        assert(texts(a.columns@) =~= assignment_columns(Seq::empty()));
        assert(value_views(a.values@) =~= assignment_values(Seq::empty()));
        a
    }

    fn add(&mut self, column: &str, value: SqlValue, Ghost(acc): Ghost<Seq<(Seq<char>, SqlValueView)>>)
        requires
            old(self).holds(acc),
        ensures
            final(self).holds(acc.push((column@, value.value_view()))),
    {
        let ghost v = value.value_view();
        let ghost old_columns = self.columns@;
        let ghost old_values = self.values@;
        self.columns.push(String::from_str(column));
        self.values.push(value);
        assert(texts(self.columns@) =~= texts(old_columns).push(column@));
        assert(value_views(self.values@) =~= value_views(old_values).push(v));
        assert(assignment_columns(acc.push((column@, v))) =~= assignment_columns(acc).push(column@));
        assert(assignment_values(acc.push((column@, v))) =~= assignment_values(acc).push(v));
    }

    fn add_text(&mut self, column: &str, value: Option<&str>, Ghost(acc): Ghost<Seq<(Seq<char>, SqlValueView)>>)
        requires
            old(self).holds(acc),
        ensures
            final(self).holds(acc + text_assignment(column@, opt_str_text(value))),
    {
        match value {
            Some(v) => {
                self.add(column, SqlValue::Text(String::from_str(v)), Ghost(acc));
                assert(acc.push((column@, SqlValueView::Text(v@))) =~= acc + text_assignment(
                    column@,
                    opt_str_text(value),
                ));
            },
            None => {
                assert(acc =~= acc + text_assignment(column@, opt_str_text(value)));
            },
        }
    }

    fn add_nullable(
        &mut self,
        column: &str,
        value: Option<Option<&str>>,
        Ghost(acc): Ghost<Seq<(Seq<char>, SqlValueView)>>,
    )
        requires
            old(self).holds(acc),
        ensures
            final(self).holds(
                acc + nullable_assignment(
                    column@,
                    match value {
                        Some(v) => Some(opt_str_text(v)),
                        None => None,
                    },
                ),
            ),
    {
        let ghost wanted = match value {
            Some(v) => Some(opt_str_text(v)),
            None => None,
        };
        match value {
            Some(v) => {
                let inner = match v {
                    Some(t) => Some(String::from_str(t)),
                    None => None,
                };
                assert(opt_text(inner) == opt_str_text(v));
                self.add(column, SqlValue::NullableText(inner), Ghost(acc));
                assert(acc.push((column@, SqlValueView::NullableText(opt_str_text(v)))) =~= acc
                    + nullable_assignment(column@, wanted));
            },
            None => {
                assert(acc =~= acc + nullable_assignment(column@, wanted));
            },
        }
    }

    /// The keyed update of `table` with these assignments.
    fn into_keyed_update(
        self,
        table: &str,
        id: &str,
        tenant_id: &str,
        organization_id: &str,
        Ghost(acc): Ghost<Seq<(Seq<char>, SqlValueView)>>,
    ) -> (st: UpdateStatement)
        requires
            self.holds(acc),
            acc.len() <= 16,
        ensures
            st.sql@ == keyed_update_sql(table@, acc),
            value_views(st.binds@) == keyed_update_values(acc, id@, tenant_id@, organization_id@),
    {
        let Assignments { columns, values } = self;
        let n = values.len();
        let sets = number_parts(&columns, 1);
        let set_sql = join(&sets, ", ");
        let mut sql = String::from_str("UPDATE ");
        push_text(&mut sql, table);
        push_text(&mut sql, " SET ");
        push_text(&mut sql, set_sql.as_str());
        push_text(&mut sql, " WHERE id = ");
        push_text(&mut sql, ph(n + 1).as_str());
        push_text(&mut sql, " AND tenant_id = ");
        push_text(&mut sql, ph(n + 2).as_str());
        push_text(&mut sql, " AND organization_id = ");
        push_text(&mut sql, ph(n + 3).as_str());
        assert(sql@ =~= keyed_update_sql(table@, acc));
        let ghost old_values = values@;
        let mut binds = values;
        binds.push(SqlValue::Text(String::from_str(id)));
        binds.push(SqlValue::Text(String::from_str(tenant_id)));
        binds.push(SqlValue::Text(String::from_str(organization_id)));
        assert(value_views(binds@) =~= value_views(old_values) + seq![
            SqlValueView::Text(id@),
            SqlValueView::Text(tenant_id@),
            SqlValueView::Text(organization_id@),
        ]);
        UpdateStatement { sql, binds }
    }
}

/// An optional string as a string slice.
pub fn opt_as_str(o: &Option<String>) -> (r: Option<&str>)
    ensures
        opt_str_text(r) == opt_text(*o),
{
    match o {
        Some(s) => Some(s.as_str()),
        None => None,
    }
}

/// An optional optional string as optional string slices.
pub fn nested_opt_as_str(o: &Option<Option<String>>) -> (r: Option<Option<&str>>)
    ensures
        match r {
            Some(v) => *o matches Some(w) && opt_str_text(v) == opt_text(w),
            None => *o is None,
        },
{
    match o {
        Some(v) => Some(opt_as_str(v)),
        None => None,
    }
}

/// The assignments of a tracker issue update: each given field in the order
/// title, status, priority, assignee, milestone; then the update time.
pub open spec fn issue_assignments(command: UpdateTrackerIssueCommand, now: Seq<char>) -> Seq<
    (Seq<char>, SqlValueView),
> {
    text_assignment("title = "@, opt_text(command.title)) + text_assignment(
        "status = "@,
        opt_text(command.status),
    ) + text_assignment("priority = "@, opt_text(command.priority)) + nullable_assignment(
        "assignee_id = "@,
        match command.assignee_id {
            Some(a) => Some(opt_text(a)),
            None => None,
        },
    ) + nullable_assignment(
        "milestone_id = "@,
        match command.milestone_id {
            Some(m) => Some(opt_text(m)),
            None => None,
        },
    ) + seq![("updated_at = "@, SqlValueView::Text(now))]
}

/// The update applying a tracker issue command to the issue `issue_id` of
/// the scope, stamped `now` (labels are replaced separately).
pub fn tracker_issue_update_statement(
    tenant_id: &str,
    organization_id: &str,
    issue_id: &str,
    command: &UpdateTrackerIssueCommand,
    now: &str,
) -> (st: UpdateStatement)
    ensures
        st.sql@ == keyed_update_sql("github_tracker_issue"@, issue_assignments(*command, now@)),
        value_views(st.binds@) == keyed_update_values(
            issue_assignments(*command, now@),
            issue_id@,
            tenant_id@,
            organization_id@,
        ),
{
    let mut a = Assignments::new();
    let ghost a0 = Seq::<(Seq<char>, SqlValueView)>::empty();
    a.add_text("title = ", opt_as_str(&command.title), Ghost(a0));
    let ghost a1 = a0 + text_assignment("title = "@, opt_text(command.title));
    a.add_text("status = ", opt_as_str(&command.status), Ghost(a1));
    let ghost a2 = a1 + text_assignment("status = "@, opt_text(command.status));
    a.add_text("priority = ", opt_as_str(&command.priority), Ghost(a2));
    let ghost a3 = a2 + text_assignment("priority = "@, opt_text(command.priority));
    let assignee = nested_opt_as_str(&command.assignee_id);
    let ghost assignee_text = match &command.assignee_id {
        Some(v) => Some(opt_text(*v)),
        None => None,
    };
    assert(match assignee {
        Some(v) => Some(opt_str_text(v)),
        None => None,
    } == assignee_text);
    a.add_nullable("assignee_id = ", assignee, Ghost(a3));
    let ghost a4 = a3 + nullable_assignment("assignee_id = "@, assignee_text);
    let milestone = nested_opt_as_str(&command.milestone_id);
    let ghost milestone_text = match &command.milestone_id {
        Some(v) => Some(opt_text(*v)),
        None => None,
    };
    assert(match milestone {
        Some(v) => Some(opt_str_text(v)),
        None => None,
    } == milestone_text);
    a.add_nullable("milestone_id = ", milestone, Ghost(a4));
    let ghost a5 = a4 + nullable_assignment("milestone_id = "@, milestone_text);
    a.add("updated_at = ", SqlValue::Text(String::from_str(now)), Ghost(a5));
    let ghost a6 = a5.push(("updated_at = "@, SqlValueView::Text(now@)));
    assert(a6 =~= issue_assignments(*command, now@));
    a.into_keyed_update("github_tracker_issue", issue_id, tenant_id, organization_id, Ghost(a6))
}

/// The assignments of a roadmap update: each given field in the order
/// title, description, status, start date, target date; then the update
/// time.
pub open spec fn roadmap_assignments(
    title: Option<Seq<char>>,
    description: Option<Option<Seq<char>>>,
    status: Option<Seq<char>>,
    start_date: Option<Option<Seq<char>>>,
    target_date: Option<Option<Seq<char>>>,
    now: Seq<char>,
) -> Seq<(Seq<char>, SqlValueView)> {
    text_assignment("title = "@, title) + nullable_assignment("description = "@, description)
        + text_assignment("status = "@, status) + nullable_assignment("start_date = "@, start_date)
        + nullable_assignment("target_date = "@, target_date) + seq![
        ("updated_at = "@, SqlValueView::Text(now)),
    ]
}

/// The value an update assigns to `column`, where it assigns one (the last
/// assignment of the column counts).
pub open spec fn assigned(assignments: Seq<(Seq<char>, SqlValueView)>, column: Seq<char>) -> Option<
    SqlValueView,
>
    decreases assignments.len(),
{
    if assignments.len() == 0 {
        None
    } else if assignments.last().0 == column {
        Some(assignments.last().1)
    } else {
        assigned(assignments.drop_last(), column)
    }
}

/// What the assignments after `a` assign wins over what `a` assigns.
proof fn lemma_assigned_concat(
    a: Seq<(Seq<char>, SqlValueView)>,
    b: Seq<(Seq<char>, SqlValueView)>,
    column: Seq<char>,
)
    ensures
        assigned(a + b, column) == (match assigned(b, column) {
            Some(v) => Some(v),
            None => assigned(a, column),
        }),
    decreases b.len(),
{
    if b.len() == 0 {
        assert(a + b =~= a);
    } else {
        assert((a + b).drop_last() =~= a + b.drop_last());
        assert((a + b).last() == b.last());
        lemma_assigned_concat(a, b.drop_last(), column);
    }
}

/// The value a text assignment gives `column`.
proof fn lemma_assigned_text(column: Seq<char>, value: Option<Seq<char>>, other: Seq<char>)
    ensures
        assigned(text_assignment(column, value), other) == (if other == column {
            match value {
                Some(v) => Some(SqlValueView::Text(v)),
                None => None,
            }
        } else {
            None
        }),
{
    reveal_with_fuel(assigned, 2);
    if let Some(v) = value {
        let s = text_assignment(column, value);
        assert(s.drop_last() =~= Seq::<(Seq<char>, SqlValueView)>::empty());
        assert(s.last() == (column, SqlValueView::Text(v)));
    } else {
        assert(text_assignment(column, value).len() == 0);
    }
}

/// The value a nullable assignment gives `column`.
proof fn lemma_assigned_nullable(
    column: Seq<char>,
    value: Option<Option<Seq<char>>>,
    other: Seq<char>,
)
    ensures
        assigned(nullable_assignment(column, value), other) == (if other == column {
            match value {
                Some(v) => Some(SqlValueView::NullableText(v)),
                None => None,
            }
        } else {
            None
        }),
{
    reveal_with_fuel(assigned, 2);
    if let Some(v) = value {
        let s = nullable_assignment(column, value);
        assert(s.drop_last() =~= Seq::<(Seq<char>, SqlValueView)>::empty());
        assert(s.last() == (column, SqlValueView::NullableText(v)));
    } else {
        assert(nullable_assignment(column, value).len() == 0);
    }
}

/// The value the update time assignment gives `column`.
proof fn lemma_assigned_now(now: Seq<char>, other: Seq<char>)
    ensures
        assigned(seq![("updated_at = "@, SqlValueView::Text(now))], other) == (if other
            == "updated_at = "@ {
            Some(SqlValueView::Text(now))
        } else {
            None
        }),
{
    reveal_with_fuel(assigned, 2);
    let s = seq![("updated_at = "@, SqlValueView::Text(now))];
    assert(s.drop_last() =~= Seq::<(Seq<char>, SqlValueView)>::empty());
    assert(s.last() == ("updated_at = "@, SqlValueView::Text(now)));
}

/// The value given for a field that a change sets where it is given.
pub open spec fn text_change(value: Option<Seq<char>>) -> Option<SqlValueView> {
    match value {
        Some(v) => Some(SqlValueView::Text(v)),
        None => None,
    }
}

/// The value given for a field that a change sets (to a text or to NULL)
/// where it is given.
pub open spec fn nullable_change(value: Option<Option<Seq<char>>>) -> Option<SqlValueView> {
    match value {
        Some(v) => Some(SqlValueView::NullableText(v)),
        None => None,
    }
}

/// What each piece of a tracker issue update assigns to `c`.
proof fn lemma_issue_pieces(command: UpdateTrackerIssueCommand, now: Seq<char>, c: Seq<char>)
    ensures
        assigned(text_assignment("title = "@, opt_text(command.title)), c) == (if c == "title = "@ {
            text_change(opt_text(command.title))
        } else {
            None
        }),
        assigned(text_assignment("status = "@, opt_text(command.status)), c) == (if c
            == "status = "@ {
            text_change(opt_text(command.status))
        } else {
            None
        }),
        assigned(text_assignment("priority = "@, opt_text(command.priority)), c) == (if c
            == "priority = "@ {
            text_change(opt_text(command.priority))
        } else {
            None
        }),
        assigned(
            nullable_assignment(
                "assignee_id = "@,
                match command.assignee_id {
                    Some(x) => Some(opt_text(x)),
                    None => None,
                },
            ),
            c,
        ) == (if c == "assignee_id = "@ {
            nullable_change(
                match command.assignee_id {
                    Some(x) => Some(opt_text(x)),
                    None => None,
                },
            )
        } else {
            None
        }),
        assigned(
            nullable_assignment(
                "milestone_id = "@,
                match command.milestone_id {
                    Some(x) => Some(opt_text(x)),
                    None => None,
                },
            ),
            c,
        ) == (if c == "milestone_id = "@ {
            nullable_change(
                match command.milestone_id {
                    Some(x) => Some(opt_text(x)),
                    None => None,
                },
            )
        } else {
            None
        }),
        assigned(seq![("updated_at = "@, SqlValueView::Text(now))], c) == (if c
            == "updated_at = "@ {
            Some(SqlValueView::Text(now))
        } else {
            None
        }),
{
    lemma_assigned_text("title = "@, opt_text(command.title), c);
    lemma_assigned_text("status = "@, opt_text(command.status), c);
    lemma_assigned_text("priority = "@, opt_text(command.priority), c);
    lemma_assigned_nullable(
        "assignee_id = "@,
        match command.assignee_id {
            Some(x) => Some(opt_text(x)),
            None => None,
        },
        c,
    );
    lemma_assigned_nullable(
        "milestone_id = "@,
        match command.milestone_id {
            Some(x) => Some(opt_text(x)),
            None => None,
        },
        c,
    );
    lemma_assigned_now(now, c);
}

/// Law: a tracker issue update changes only what the command gives. Title,
/// status and priority are set where given; assignee and milestone are set
/// where given, `Some(None)` clearing them; the update time is always set;
/// every other column (description, type, submitter, counts, creation
/// time) is left as it is.
pub proof fn lemma_issue_update_sets_given_fields(
    command: UpdateTrackerIssueCommand,
    now: Seq<char>,
    column: Seq<char>,
)
    ensures
        ({
            let a = issue_assignments(command, now);
            &&& assigned(a, "title = "@) == text_change(opt_text(command.title))
            &&& assigned(a, "status = "@) == text_change(opt_text(command.status))
            &&& assigned(a, "priority = "@) == text_change(opt_text(command.priority))
            &&& assigned(a, "assignee_id = "@) == nullable_change(
                match command.assignee_id {
                    Some(x) => Some(opt_text(x)),
                    None => None,
                },
            )
            &&& assigned(a, "milestone_id = "@) == nullable_change(
                match command.milestone_id {
                    Some(x) => Some(opt_text(x)),
                    None => None,
                },
            )
            &&& assigned(a, "updated_at = "@) == Some(SqlValueView::Text(now))
            &&& (column != "title = "@ && column != "status = "@ && column != "priority = "@
                && column != "assignee_id = "@ && column != "milestone_id = "@ && column
                != "updated_at = "@) ==> assigned(a, column) is None
        }),
{
    reveal_strlit("title = ");
    reveal_strlit("status = ");
    reveal_strlit("priority = ");
    reveal_strlit("assignee_id = ");
    reveal_strlit("milestone_id = ");
    reveal_strlit("updated_at = ");
    assert("title = "@.len() == 8);
    assert("status = "@.len() == 9);
    assert("priority = "@.len() == 11);
    assert("assignee_id = "@.len() == 14);
    assert("milestone_id = "@.len() == 15);
    assert("updated_at = "@.len() == 13);
    let t1 = text_assignment("title = "@, opt_text(command.title));
    let t2 = text_assignment("status = "@, opt_text(command.status));
    let t3 = text_assignment("priority = "@, opt_text(command.priority));
    let n4 = nullable_assignment(
        "assignee_id = "@,
        match command.assignee_id {
            Some(x) => Some(opt_text(x)),
            None => None,
        },
    );
    let n5 = nullable_assignment(
        "milestone_id = "@,
        match command.milestone_id {
            Some(x) => Some(opt_text(x)),
            None => None,
        },
    );
    let u = seq![("updated_at = "@, SqlValueView::Text(now))];
    assert(issue_assignments(command, now) == t1 + t2 + t3 + n4 + n5 + u);
    assert forall|c: Seq<char>|
        #![trigger assigned(issue_assignments(command, now), c)]
        true implies assigned(issue_assignments(command, now), c) == (match assigned(u, c) {
            Some(v) => Some(v),
            None => match assigned(n5, c) {
                Some(v) => Some(v),
                None => match assigned(n4, c) {
                    Some(v) => Some(v),
                    None => match assigned(t3, c) {
                        Some(v) => Some(v),
                        None => match assigned(t2, c) {
                            Some(v) => Some(v),
                            None => assigned(t1, c),
                        },
                    },
                },
            },
        }) by {
        lemma_assigned_concat(t1 + t2 + t3 + n4 + n5, u, c);
        lemma_assigned_concat(t1 + t2 + t3 + n4, n5, c);
        lemma_assigned_concat(t1 + t2 + t3, n4, c);
        lemma_assigned_concat(t1 + t2, t3, c);
        lemma_assigned_concat(t1, t2, c);
    }
    lemma_issue_pieces(command, now, "title = "@);
    lemma_issue_pieces(command, now, "status = "@);
    lemma_issue_pieces(command, now, "priority = "@);
    lemma_issue_pieces(command, now, "assignee_id = "@);
    lemma_issue_pieces(command, now, "milestone_id = "@);
    lemma_issue_pieces(command, now, "updated_at = "@);
    lemma_issue_pieces(command, now, column);
    assert(assigned(issue_assignments(command, now), "title = "@) == text_change(
        opt_text(command.title),
    )) by {
        assert(assigned(t1, "title = "@) == text_change(opt_text(command.title)));
        assert(assigned(t2, "title = "@) is None);
    }
    assert(assigned(issue_assignments(command, now), "status = "@) == text_change(
        opt_text(command.status),
    )) by {
        assert(assigned(t2, "status = "@) == text_change(opt_text(command.status)));
        assert(assigned(t3, "status = "@) is None);
    }
    assert(assigned(issue_assignments(command, now), "priority = "@) == text_change(
        opt_text(command.priority),
    )) by {
        assert(assigned(t3, "priority = "@) == text_change(opt_text(command.priority)));
        assert(assigned(n4, "priority = "@) is None);
    }
    assert(assigned(issue_assignments(command, now), "assignee_id = "@) == nullable_change(
        match command.assignee_id {
            Some(x) => Some(opt_text(x)),
            None => None,
        },
    )) by {
        assert(assigned(n4, "assignee_id = "@) == nullable_change(
            match command.assignee_id {
                Some(x) => Some(opt_text(x)),
                None => None,
            },
        ));
        assert(assigned(n5, "assignee_id = "@) is None);
        assert(assigned(t3, "assignee_id = "@) is None);
        assert(assigned(t2, "assignee_id = "@) is None);
        assert(assigned(t1, "assignee_id = "@) is None);
    }
    assert(assigned(issue_assignments(command, now), "milestone_id = "@) == nullable_change(
        match command.milestone_id {
            Some(x) => Some(opt_text(x)),
            None => None,
        },
    )) by {
        assert(assigned(n5, "milestone_id = "@) == nullable_change(
            match command.milestone_id {
                Some(x) => Some(opt_text(x)),
                None => None,
            },
        ));
        assert(assigned(u, "milestone_id = "@) is None);
        assert(assigned(n4, "milestone_id = "@) is None);
        assert(assigned(t3, "milestone_id = "@) is None);
        assert(assigned(t2, "milestone_id = "@) is None);
        assert(assigned(t1, "milestone_id = "@) is None);
    }
    assert(assigned(issue_assignments(command, now), "updated_at = "@) == Some(
        SqlValueView::Text(now),
    )) by {
        assert(assigned(u, "updated_at = "@) == Some(SqlValueView::Text(now)));
    }
    assert(assigned(issue_assignments(command, now), column) == assigned(
        issue_assignments(command, now),
        column,
    ));
}

/// What each piece of a roadmap update assigns to `c`.
proof fn lemma_roadmap_pieces(
    title: Option<Seq<char>>,
    description: Option<Option<Seq<char>>>,
    status: Option<Seq<char>>,
    start_date: Option<Option<Seq<char>>>,
    target_date: Option<Option<Seq<char>>>,
    now: Seq<char>,
    c: Seq<char>,
)
    ensures
        assigned(text_assignment("title = "@, title), c) == (if c == "title = "@ {
            text_change(title)
        } else {
            None
        }),
        assigned(nullable_assignment("description = "@, description), c) == (if c
            == "description = "@ {
            nullable_change(description)
        } else {
            None
        }),
        assigned(text_assignment("status = "@, status), c) == (if c == "status = "@ {
            text_change(status)
        } else {
            None
        }),
        assigned(nullable_assignment("start_date = "@, start_date), c) == (if c
            == "start_date = "@ {
            nullable_change(start_date)
        } else {
            None
        }),
        assigned(nullable_assignment("target_date = "@, target_date), c) == (if c
            == "target_date = "@ {
            nullable_change(target_date)
        } else {
            None
        }),
        assigned(seq![("updated_at = "@, SqlValueView::Text(now))], c) == (if c
            == "updated_at = "@ {
            Some(SqlValueView::Text(now))
        } else {
            None
        }),
{
    lemma_assigned_text("title = "@, title, c);
    lemma_assigned_nullable("description = "@, description, c);
    lemma_assigned_text("status = "@, status, c);
    lemma_assigned_nullable("start_date = "@, start_date, c);
    lemma_assigned_nullable("target_date = "@, target_date, c);
    lemma_assigned_now(now, c);
}

/// What a roadmap update assigns to `c`: the last piece that assigns it.
proof fn lemma_roadmap_assigned(
    title: Option<Seq<char>>,
    description: Option<Option<Seq<char>>>,
    status: Option<Seq<char>>,
    start_date: Option<Option<Seq<char>>>,
    target_date: Option<Option<Seq<char>>>,
    now: Seq<char>,
    c: Seq<char>,
)
    ensures
        ({
            let t1 = text_assignment("title = "@, title);
            let n2 = nullable_assignment("description = "@, description);
            let t3 = text_assignment("status = "@, status);
            let n4 = nullable_assignment("start_date = "@, start_date);
            let n5 = nullable_assignment("target_date = "@, target_date);
            let u = seq![("updated_at = "@, SqlValueView::Text(now))];
            assigned(roadmap_assignments(title, description, status, start_date, target_date, now), c)
                == match assigned(u, c) {
                Some(v) => Some(v),
                None => match assigned(n5, c) {
                    Some(v) => Some(v),
                    None => match assigned(n4, c) {
                        Some(v) => Some(v),
                        None => match assigned(t3, c) {
                            Some(v) => Some(v),
                            None => match assigned(n2, c) {
                                Some(v) => Some(v),
                                None => assigned(t1, c),
                            },
                        },
                    },
                },
            }
        }),
{
    let t1 = text_assignment("title = "@, title);
    let n2 = nullable_assignment("description = "@, description);
    let t3 = text_assignment("status = "@, status);
    let n4 = nullable_assignment("start_date = "@, start_date);
    let n5 = nullable_assignment("target_date = "@, target_date);
    let u = seq![("updated_at = "@, SqlValueView::Text(now))];
    assert(roadmap_assignments(title, description, status, start_date, target_date, now) == t1
        + n2 + t3 + n4 + n5 + u);
    lemma_assigned_concat(t1 + n2 + t3 + n4 + n5, u, c);
    lemma_assigned_concat(t1 + n2 + t3 + n4, n5, c);
    lemma_assigned_concat(t1 + n2 + t3, n4, c);
    lemma_assigned_concat(t1 + n2, t3, c);
    lemma_assigned_concat(t1, n2, c);
}

/// Law: a roadmap update changes only what is given. Title and status are
/// set where given; description, start and target dates are set where
/// given, `Some(None)` clearing them; the update time is always set; every
/// other column is left as it is.
pub proof fn lemma_roadmap_update_sets_given_fields(
    title: Option<Seq<char>>,
    description: Option<Option<Seq<char>>>,
    status: Option<Seq<char>>,
    start_date: Option<Option<Seq<char>>>,
    target_date: Option<Option<Seq<char>>>,
    now: Seq<char>,
    column: Seq<char>,
)
    ensures
        ({
            let a = roadmap_assignments(title, description, status, start_date, target_date, now);
            &&& assigned(a, "title = "@) == text_change(title)
            &&& assigned(a, "description = "@) == nullable_change(description)
            &&& assigned(a, "status = "@) == text_change(status)
            &&& assigned(a, "start_date = "@) == nullable_change(start_date)
            &&& assigned(a, "target_date = "@) == nullable_change(target_date)
            &&& assigned(a, "updated_at = "@) == Some(SqlValueView::Text(now))
            &&& (column != "title = "@ && column != "description = "@ && column != "status = "@
                && column != "start_date = "@ && column != "target_date = "@ && column
                != "updated_at = "@) ==> assigned(a, column) is None
        }),
{
    reveal_strlit("title = ");
    reveal_strlit("description = ");
    reveal_strlit("status = ");
    reveal_strlit("start_date = ");
    reveal_strlit("target_date = ");
    reveal_strlit("updated_at = ");
    assert("title = "@.len() == 8);
    assert("status = "@.len() == 9);
    assert("description = "@.len() == 14 && "description = "@[0] == 'd');
    assert("target_date = "@.len() == 14 && "target_date = "@[0] == 't');
    assert("start_date = "@.len() == 13 && "start_date = "@[0] == 's');
    assert("updated_at = "@.len() == 13 && "updated_at = "@[0] == 'u');
    lemma_roadmap_pieces(title, description, status, start_date, target_date, now, "title = "@);
    lemma_roadmap_assigned(title, description, status, start_date, target_date, now, "title = "@);
    lemma_roadmap_pieces(title, description, status, start_date, target_date, now, "description = "@);
    lemma_roadmap_assigned(title, description, status, start_date, target_date, now, "description = "@);
    lemma_roadmap_pieces(title, description, status, start_date, target_date, now, "status = "@);
    lemma_roadmap_assigned(title, description, status, start_date, target_date, now, "status = "@);
    lemma_roadmap_pieces(title, description, status, start_date, target_date, now, "start_date = "@);
    lemma_roadmap_assigned(title, description, status, start_date, target_date, now, "start_date = "@);
    lemma_roadmap_pieces(title, description, status, start_date, target_date, now, "target_date = "@);
    lemma_roadmap_assigned(title, description, status, start_date, target_date, now, "target_date = "@);
    lemma_roadmap_pieces(title, description, status, start_date, target_date, now, "updated_at = "@);
    lemma_roadmap_assigned(title, description, status, start_date, target_date, now, "updated_at = "@);
    lemma_roadmap_pieces(title, description, status, start_date, target_date, now, column);
    lemma_roadmap_assigned(title, description, status, start_date, target_date, now, column);
}

/// The text of an optional optional string slice.
pub open spec fn nested_str_text(o: Option<Option<&str>>) -> Option<Option<Seq<char>>> {
    match o {
        Some(v) => Some(opt_str_text(v)),
        None => None,
    }
}

/// The update applying a roadmap change to the roadmap `roadmap_id` of the
/// scope, stamped `now`.
pub fn tracker_roadmap_update_statement(
    tenant_id: &str,
    organization_id: &str,
    roadmap_id: &str,
    title: Option<&str>,
    description: Option<Option<&str>>,
    status: Option<&str>,
    start_date: Option<Option<&str>>,
    target_date: Option<Option<&str>>,
    now: &str,
) -> (st: UpdateStatement)
    ensures
        st.sql@ == keyed_update_sql(
            "github_tracker_roadmap"@,
            roadmap_assignments(
                opt_str_text(title),
                nested_str_text(description),
                opt_str_text(status),
                nested_str_text(start_date),
                nested_str_text(target_date),
                now@,
            ),
        ),
        value_views(st.binds@) == keyed_update_values(
            roadmap_assignments(
                opt_str_text(title),
                nested_str_text(description),
                opt_str_text(status),
                nested_str_text(start_date),
                nested_str_text(target_date),
                now@,
            ),
            roadmap_id@,
            tenant_id@,
            organization_id@,
        ),
{
    let mut a = Assignments::new();
    let ghost a0 = Seq::<(Seq<char>, SqlValueView)>::empty();
    a.add_text("title = ", title, Ghost(a0));
    let ghost a1 = a0 + text_assignment("title = "@, opt_str_text(title));
    a.add_nullable("description = ", description, Ghost(a1));
    let ghost a2 = a1 + nullable_assignment("description = "@, nested_str_text(description));
    a.add_text("status = ", status, Ghost(a2));
    let ghost a3 = a2 + text_assignment("status = "@, opt_str_text(status));
    a.add_nullable("start_date = ", start_date, Ghost(a3));
    let ghost a4 = a3 + nullable_assignment("start_date = "@, nested_str_text(start_date));
    a.add_nullable("target_date = ", target_date, Ghost(a4));
    let ghost a5 = a4 + nullable_assignment("target_date = "@, nested_str_text(target_date));
    a.add("updated_at = ", SqlValue::Text(String::from_str(now)), Ghost(a5));
    let ghost a6 = a5.push(("updated_at = "@, SqlValueView::Text(now@)));
    assert(a6 =~= roadmap_assignments(
        opt_str_text(title),
        nested_str_text(description),
        opt_str_text(status),
        nested_str_text(start_date),
        nested_str_text(target_date),
        now@,
    ));
    a.into_keyed_update("github_tracker_roadmap", roadmap_id, tenant_id, organization_id, Ghost(a6))
}

// ── Milestone progress ──────────────────────────────────────────────────

/// The part of the milestone progress query before its filter.
pub const MILESTONE_PROGRESS_HEAD: &'static str = "SELECT m.id, m.title, m.status, m.due_date, COUNT(i.id) as total_issues, SUM(CASE WHEN i.status IN ('open', 'in_progress') THEN 1 ELSE 0 END) as open_issues, SUM(CASE WHEN i.status IN ('resolved', 'closed') THEN 1 ELSE 0 END) as closed_issues\n             FROM github_tracker_milestone m LEFT JOIN github_tracker_issue i ON i.milestone_id = m.id AND i.tenant_id = m.tenant_id AND i.organization_id = m.organization_id\n             WHERE ";

/// The part of the milestone progress query after its filter.
pub const MILESTONE_PROGRESS_TAIL: &'static str = " GROUP BY m.id ORDER BY m.due_date ASC NULLS LAST";

/// The milestone progress query of a scope and the values it binds.
pub struct MilestoneProgressStatement {
    pub sql: String,
    pub binds: Vec<String>,
}

/// The query of a scope's milestones with their issue counts, limited to
/// one status where one is requested.
pub fn milestone_progress_statement(tenant_id: &str, organization_id: &str, status: Option<&str>) -> (st:
    MilestoneProgressStatement)
    ensures
        st.sql@ == MILESTONE_PROGRESS_HEAD@ + "m.tenant_id = $1 AND m.organization_id = $2"@ + (
        if status is Some {
            " AND m.status = $3"@
        } else {
            Seq::empty()
        }) + MILESTONE_PROGRESS_TAIL@,
        texts(st.binds@) == seq![tenant_id@, organization_id@] + match status {
            Some(s) => seq![s@],
            None => Seq::empty(),
        },
{
    let mut sql = String::from_str(MILESTONE_PROGRESS_HEAD);
    push_text(&mut sql, "m.tenant_id = $1 AND m.organization_id = $2");
    let mut binds: Vec<String> = Vec::new();
    binds.push(String::from_str(tenant_id));
    binds.push(String::from_str(organization_id));
    match status {
        Some(s) => {
            push_text(&mut sql, " AND m.status = $3");
            binds.push(String::from_str(s));
        },
        None => {},
    }
    push_text(&mut sql, MILESTONE_PROGRESS_TAIL);
    assert(sql@ =~= MILESTONE_PROGRESS_HEAD@ + "m.tenant_id = $1 AND m.organization_id = $2"@ + (
    if status is Some {
        " AND m.status = $3"@
    } else {
        Seq::empty()
    }) + MILESTONE_PROGRESS_TAIL@);
    assert(texts(binds@) =~= seq![tenant_id@, organization_id@] + match status {
        Some(s) => seq![s@],
        None => Seq::empty(),
    });
    MilestoneProgressStatement { sql, binds }
}

/// A milestone's progress from its counted row: a count the database left
/// NULL (a milestone with no issues) reads as zero; counts are taken as
/// unsigned.
pub fn milestone_progress_from_counts(
    id: String,
    title: String,
    status: String,
    due_date: Option<String>,
    total_issues: i64,
    open_issues: Option<i64>,
    closed_issues: Option<i64>,
) -> (p: MilestoneProgress)
    ensures
        p.id == id,
        p.title == title,
        p.status == status,
        p.due_date == due_date,
        p.total_issues == total_issues as u64,
        p.open_issues == (match open_issues {
            Some(c) => c,
            None => 0,
        }) as u64,
        p.closed_issues == (match closed_issues {
            Some(c) => c,
            None => 0,
        }) as u64,
{
    let open = match open_issues {
        Some(c) => c,
        None => 0,
    };
    let closed = match closed_issues {
        Some(c) => c,
        None => 0,
    };
    MilestoneProgress {
        id,
        title,
        status,
        due_date,
        total_issues: total_issues as u64,
        open_issues: open as u64,
        closed_issues: closed as u64,
    }
}

} // verus!
