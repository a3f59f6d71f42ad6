//! The task entity: its row, payload and filter types, the three query
//! shapes over its table, and the list pipeline — filter, order by id
//! descending, cut to the requested page.

use crate::like::{like_match, spec_like};
use crate::pagination::{page_slice, spec_page_slice, spec_total_pages, total_pages};
use crate::sort::{sort_by_key_desc, spec_sort_desc, Keyed};
use crate::state::TASK_STATE_DELETED;
use vstd::prelude::*;

verus! {

/// A task row as persisted: immutable `id`, mutable business fields, a
/// status code, and timestamps (seconds since the epoch).
#[derive(Debug, PartialEq)]
pub struct Task {
    pub id: i64,
    pub name: String,
    pub description: String,
    pub command: String,
    pub frequency: String,
    pub cron_expression: String,
    pub timeout: i16,
    pub retry_times: i16,
    pub retry_interval: i16,
    pub maximun_parallel_runnable_num: i16,
    pub tag: String,
    pub status: i16,
    pub created_time: i64,
    pub deleted_time: Option<i64>,
}

impl Keyed for Task {
    open spec fn spec_key(&self) -> i64 {
        self.id
    }

    fn key(&self) -> (k: i64) {
        self.id
    }
}

/// Create payload: the business fields of a row to be, without id, status
/// or timestamps; the new row gets the initial status.
#[derive(Debug)]
pub struct NewTask {
    pub name: String,
    pub description: String,
    pub command: String,
    pub frequency: String,
    pub cron_expression: String,
    pub timeout: i16,
    pub retry_times: i16,
    pub retry_interval: i16,
    pub maximun_parallel_runnable_num: i16,
    pub tag: String,
}

impl Default for NewTask {
    /// Empty strings and zero numbers.
    fn default() -> (r: Self)
        ensures
            r.name@.len() == 0,
            r.description@.len() == 0,
            r.command@.len() == 0,
            r.frequency@.len() == 0,
            r.cron_expression@.len() == 0,
            r.timeout == 0,
            r.retry_times == 0,
            r.retry_interval == 0,
            r.maximun_parallel_runnable_num == 0,
            r.tag@.len() == 0,
    {
        NewTask {
            name: String::new(),
            description: String::new(),
            command: String::new(),
            frequency: String::new(),
            cron_expression: String::new(),
            timeout: 0,
            retry_times: 0,
            retry_interval: 0,
            maximun_parallel_runnable_num: 0,
            tag: String::new(),
        }
    }
}

/// Update payload: a full replace of the business fields of the row keyed
/// by `id`; status and timestamps are untouched.
#[derive(Debug)]
pub struct UpdateTask {
    pub id: i64,
    pub name: String,
    pub description: String,
    pub command: String,
    pub frequency: String,
    pub cron_expression: String,
    pub timeout: i16,
    pub retry_times: i16,
    pub retry_interval: i16,
    pub maximun_parallel_runnable_num: i16,
    pub tag: String,
}

/// An identifier handed to single-row operations.
#[derive(Clone, Copy, Debug, PartialEq, Eq, Structural)]
pub struct TaskId {
    pub task_id: i64,
}

/// Create payload plus the executor bindings the new task should run under.
#[derive(Debug)]
pub struct NewTaskBody {
    pub new_task: NewTask,
    pub binding_ids: Vec<i64>,
}

impl Default for NewTaskBody {
    /// A default create payload and no bindings.
    fn default() -> (r: Self)
        ensures
            r.binding_ids@.len() == 0,
    {
        NewTaskBody { new_task: NewTask::default(), binding_ids: Vec::new() }
    }
}

/// Update payload plus the executor bindings the task should keep.
#[derive(Debug)]
pub struct UpdateTaskBody {
    pub task: UpdateTask,
    pub binding_ids: Vec<i64>,
}

/// The narrow projection used for export and reporting: identity and
/// descriptive columns only.
#[derive(Debug, PartialEq)]
pub struct SupplyTask {
    pub id: i64,
    pub name: String,
    pub description: String,
    pub command: String,
    pub frequency: String,
    pub cron_expression: String,
    pub tag: String,
}

impl Default for SupplyTask {
    /// Zero id and empty strings.
    fn default() -> (r: Self)
        ensures
            r.id == 0,
            r.name@.len() == 0,
            r.description@.len() == 0,
            r.command@.len() == 0,
            r.frequency@.len() == 0,
            r.cron_expression@.len() == 0,
            r.tag@.len() == 0,
    {
        SupplyTask {
            id: 0,
            name: String::new(),
            description: String::new(),
            command: String::new(),
            frequency: String::new(),
            cron_expression: String::new(),
            tag: String::new(),
        }
    }
}

/// Filter model of the task list call: one optional field per filterable
/// column — absent fields contribute no predicate, present ones AND
/// together — plus the mandatory `page` and `per_page`.
#[derive(Debug)]
pub struct QueryParamsTask {
    pub id: Option<i64>,
    pub name: Option<String>,
    pub description: Option<String>,
    pub command: Option<String>,
    pub cron_expression: Option<String>,
    pub tag: Option<String>,
    pub status: Option<i16>,
    pub per_page: i64,
    pub page: i64,
}

impl Default for QueryParamsTask {
    /// No predicates; page and page size zero (clamped when used).
    fn default() -> (r: Self)
        ensures
            r.id is None,
            r.name is None,
            r.description is None,
            r.command is None,
            r.cron_expression is None,
            r.tag is None,
            r.status is None,
            r.per_page == 0,
            r.page == 0,
    {
        QueryParamsTask {
            id: None,
            name: None,
            description: None,
            command: None,
            cron_expression: None,
            tag: None,
            status: None,
            per_page: 0,
            page: 0,
        }
    }
}

/// Whether the filter model admits a task row.
///
/// The status rule comes first: an explicitly requested status is matched
/// exactly (even the deleted one), and with no status requested the
/// logically deleted rows are excluded. Identifier and status fields match
/// exactly; free-text fields match as SQL `LIKE` patterns.
pub open spec fn spec_params_admit(p: QueryParamsTask, t: Task) -> bool {
    &&& (match p.status {
        Some(s) => t.status == s,
        None => t.status != TASK_STATE_DELETED,
    })
    &&& (match p.id {
        Some(id) => t.id == id,
        None => true,
    })
    &&& (match p.name {
        Some(pat) => spec_like(pat@, t.name@),
        None => true,
    })
    &&& (match p.description {
        Some(pat) => spec_like(pat@, t.description@),
        None => true,
    })
    &&& (match p.command {
        Some(pat) => spec_like(pat@, t.command@),
        None => true,
    })
    &&& (match p.cron_expression {
        Some(pat) => spec_like(pat@, t.cron_expression@),
        None => true,
    })
    &&& (match p.tag {
        Some(pat) => spec_like(pat@, t.tag@),
        None => true,
    })
}

/// Whether the filter model admits the row.
pub fn params_admit(p: &QueryParamsTask, t: &Task) -> (r: bool)
    ensures
        r == spec_params_admit(*p, *t),
{
    let status_ok = match &p.status {
        Some(s) => t.status == *s,
        None => t.status != TASK_STATE_DELETED,
    };
    let id_ok = match &p.id {
        Some(id) => t.id == *id,
        None => true,
    };
    let name_ok = match &p.name {
        Some(pat) => like_match(pat.as_str(), t.name.as_str()),
        None => true,
    };
    let description_ok = match &p.description {
        Some(pat) => like_match(pat.as_str(), t.description.as_str()),
        None => true,
    };
    let command_ok = match &p.command {
        Some(pat) => like_match(pat.as_str(), t.command.as_str()),
        None => true,
    };
    let cron_ok = match &p.cron_expression {
        Some(pat) => like_match(pat.as_str(), t.cron_expression.as_str()),
        None => true,
    };
    let tag_ok = match &p.tag {
        Some(pat) => like_match(pat.as_str(), t.tag.as_str()),
        None => true,
    };
    status_ok && id_ok && name_ok && description_ok && command_ok && cron_ok && tag_ok
}

/// The rows of `s` the filter model admits, in table order.
pub open spec fn spec_admitted_tasks(s: Seq<Task>, p: QueryParamsTask) -> Seq<Task>
    decreases s.len(),
{
    if s.len() == 0 {
        Seq::empty()
    } else {
        let rest = spec_admitted_tasks(s.drop_last(), p);
        if spec_params_admit(p, s.last()) {
            rest.push(s.last())
        } else {
            rest
        }
    }
}

/// Filtering admits no more rows than the table holds.
pub proof fn lemma_admitted_len(s: Seq<Task>, p: QueryParamsTask)
    ensures
        spec_admitted_tasks(s, p).len() <= s.len(),
    decreases s.len(),
{
    if s.len() == 0 {
    } else {
        lemma_admitted_len(s.drop_last(), p);
    }
}

/// Every admitted row is admitted by the filter model.
pub proof fn lemma_admitted_pred(s: Seq<Task>, p: QueryParamsTask)
    ensures
        forall|i: int|
            0 <= i < spec_admitted_tasks(s, p).len() ==> spec_params_admit(
                p,
                #[trigger] spec_admitted_tasks(s, p)[i],
            ),
    decreases s.len(),
{
    if s.len() == 0 {
    } else {
        lemma_admitted_pred(s.drop_last(), p);
        let rest = spec_admitted_tasks(s.drop_last(), p);
        assert forall|i: int| 0 <= i < spec_admitted_tasks(s, p).len() implies spec_params_admit(
            p,
            #[trigger] spec_admitted_tasks(s, p)[i],
        ) by {
            if i < rest.len() {
                assert(spec_admitted_tasks(s, p)[i] == rest[i]);
            }
        }
    }
}

/// One step of filtering: extending the scanned prefix by one row either
/// appends that row to the admitted ones or leaves them unchanged.
proof fn lemma_admitted_take_step(s: Seq<Task>, p: QueryParamsTask, i: int)
    requires
        0 <= i < s.len(),
    ensures
        spec_admitted_tasks(s.take(i + 1), p) == if spec_params_admit(p, s[i]) {
            spec_admitted_tasks(s.take(i), p).push(s[i])
        } else {
            spec_admitted_tasks(s.take(i), p)
        },
{
    assert(s.take(i + 1).drop_last() =~= s.take(i));
    assert(s.take(i + 1).last() == s[i]);
}

/// The rows the filter model admits, in table order.
pub fn filter_tasks(table: Vec<Task>, params: &QueryParamsTask) -> (r: Vec<Task>)
    ensures
        r@ == spec_admitted_tasks(table@, *params),
{
    let ghost orig = table@;
    let mut table = table;
    let mut admitted: Vec<Task> = Vec::new();
    proof {
        assert(table@ =~= orig.skip(0));
        assert(orig.take(0) =~= Seq::<Task>::empty());
        assert(admitted@ =~= spec_admitted_tasks(orig.take(0), *params));
    }
    while table.len() > 0
        invariant
            table@.len() <= orig.len(),
            table@ == orig.skip(orig.len() - table@.len()),
            admitted@ == spec_admitted_tasks(orig.take(orig.len() - table@.len()), *params),
        decreases table@.len(),
    {
        let ghost i = orig.len() - table@.len();
        proof {
            assert(orig.skip(i)[0] == orig[i]);
            assert(orig.skip(i).remove(0) =~= orig.skip(i + 1));
        }
        let t = table.remove(0);
        let keep = params_admit(params, &t);
        proof {
            lemma_admitted_take_step(orig, *params, i);
        }
        if keep {
            admitted.push(t);
        }
    }
    proof {
        assert(orig.take(orig.len() as int) =~= orig);
    }
    admitted
}

/// How many rows the filter model admits: the count query of the list call.
pub fn count_tasks(table: &Vec<Task>, params: &QueryParamsTask) -> (n: i64)
    requires
        table@.len() < 0x8000000000000000,
    ensures
        n == spec_admitted_tasks(table@, *params).len(),
{
    let ghost orig = table@;
    let mut n: i64 = 0;
    let mut i: usize = 0;
    proof {
        assert(orig.take(0) =~= Seq::<Task>::empty());
    }
    while i < table.len()
        invariant
            i <= orig.len(),
            orig.len() < 0x8000000000000000,
            orig == table@,
            0 <= n <= i,
            n == spec_admitted_tasks(orig.take(i as int), *params).len(),
        decreases orig.len() - i,
    {
        proof {
            lemma_admitted_take_step(orig, *params, i as int);
        }
        if params_admit(params, &table[i]) {
            n = n + 1;
        }
        i = i + 1;
    }
    proof {
        assert(orig.take(orig.len() as int) =~= orig);
    }
    n
}

/// What the task list call returns: the admitted rows, ordered by id
/// descending, cut to the requested page.
pub open spec fn spec_listed_tasks(table: Seq<Task>, p: QueryParamsTask) -> Seq<Task> {
    spec_page_slice(
        spec_sort_desc(spec_admitted_tasks(table, p)),
        p.page as int,
        p.per_page as int,
    )
}

/// One page of task rows plus the totals a client needs to render a pager.
#[derive(Debug)]
pub struct PaginateTask {
    pub tasks: Vec<Task>,
    pub per_page: i64,
    pub total_page: i64,
}

impl Default for PaginateTask {
    /// No rows, zero page size, zero pages.
    fn default() -> (r: Self)
        ensures
            r.tasks@.len() == 0,
            r.per_page == 0,
            r.total_page == 0,
    {
        PaginateTask { tasks: Vec::new(), per_page: 0, total_page: 0 }
    }
}

impl PaginateTask {
    /// Stores the page's rows; everything else is untouched.
    pub fn set_tasks(self, tasks: Vec<Task>) -> (r: Self)
        ensures
            r.tasks == tasks,
            r.per_page == self.per_page,
            r.total_page == self.total_page,
    {
        let mut s = self;
        s.tasks = tasks;
        s
    }

    /// Stores the page size; everything else is untouched.
    pub fn set_per_page(self, per_page: i64) -> (r: Self)
        ensures
            r.per_page == per_page,
            r.tasks == self.tasks,
            r.total_page == self.total_page,
    {
        let mut s = self;
        s.per_page = per_page;
        s
    }

    /// Derives `total_page` from the row total and the page size set
    /// before; everything else is untouched.
    pub fn set_total_page(self, total: i64) -> (r: Self)
        ensures
            r.total_page == spec_total_pages(total as int, self.per_page as int),
            r.tasks == self.tasks,
            r.per_page == self.per_page,
    {
        let total_page = total_pages(total, self.per_page);
        let mut s = self;
        s.total_page = total_page;
        s
    }
}

/// The task list call over a table snapshot: filters with the model, orders
/// by id descending, cuts to the requested page, and derives the totals
/// from the same admitted row set the page was cut from — so the count and
/// the listing always agree.
pub fn list_tasks(table: Vec<Task>, params: &QueryParamsTask) -> (r: PaginateTask)
    requires
        table@.len() < 0x8000000000000000,
    ensures
        r.tasks@ == spec_listed_tasks(table@, *params),
        r.per_page == params.per_page,
        r.total_page == spec_total_pages(
            spec_admitted_tasks(table@, *params).len() as int,
            params.per_page as int,
        ),
{
    let ghost orig = table@;
    let admitted = filter_tasks(table, params);
    proof {
        lemma_admitted_len(orig, *params);
    }
    let total = admitted.len() as i64;
    let sorted = sort_by_key_desc(admitted);
    let rows = page_slice(sorted, params.page, params.per_page);
    PaginateTask::default().set_tasks(rows).set_per_page(params.per_page).set_total_page(total)
}

/// The three query shapes of the task table: the full-row listing
/// projection, the narrow supply projection, and the row count.
#[derive(Clone, Copy, Debug, PartialEq, Eq, Structural)]
pub enum TaskProjection {
    AllColumns,
    SupplyColumns,
    CountStar,
}

/// One predicate of a task query, as data: exact match on identifier and
/// status columns, `LIKE` match on free-text columns.
#[derive(Debug, PartialEq)]
pub enum TaskPredicate {
    IdEq(i64),
    StatusEq(i16),
    StatusNe(i16),
    NameLike(String),
    DescriptionLike(String),
    CommandLike(String),
    CronExpressionLike(String),
    TagLike(String),
}

/// Orderings a task query can carry.
#[derive(Clone, Copy, Debug, PartialEq, Eq, Structural)]
pub enum TaskOrdering {
    IdDesc,
}

/// A composable query over the task table: a projection, a predicate
/// chain, and an optional ordering.
#[derive(Debug)]
pub struct TaskQuery {
    pub projection: TaskProjection,
    pub predicates: Vec<TaskPredicate>,
    pub ordering: Option<TaskOrdering>,
}

/// Factory of the three query shapes. All three accept the identical
/// predicate chain a filter model produces, so the count and the listing
/// always agree on which rows qualify.
pub struct TaskQueryBuilder;

impl TaskQueryBuilder {
    /// The full-row projection for listing, with no predicates yet.
    pub fn query_all_columns() -> (q: TaskQuery)
        ensures
            q.projection == TaskProjection::AllColumns,
            q.predicates@.len() == 0,
            q.ordering is None,
    {
        TaskQuery {
            projection: TaskProjection::AllColumns,
            predicates: Vec::new(),
            ordering: None,
        }
    }

    /// The narrow supply projection for export, with no predicates yet.
    pub fn query_supply_task_log() -> (q: TaskQuery)
        ensures
            q.projection == TaskProjection::SupplyColumns,
            q.predicates@.len() == 0,
            q.ordering is None,
    {
        TaskQuery {
            projection: TaskProjection::SupplyColumns,
            predicates: Vec::new(),
            ordering: None,
        }
    }

    /// The row-count aggregate, with no predicates yet.
    pub fn query_count() -> (q: TaskQuery)
        ensures
            q.projection == TaskProjection::CountStar,
            q.predicates@.len() == 0,
            q.ordering is None,
    {
        TaskQuery {
            projection: TaskProjection::CountStar,
            predicates: Vec::new(),
            ordering: None,
        }
    }
}

/// Whether one predicate holds of a task row.
pub open spec fn spec_pred_holds(p: TaskPredicate, t: Task) -> bool {
    match p {
        TaskPredicate::IdEq(id) => t.id == id,
        TaskPredicate::StatusEq(s) => t.status == s,
        TaskPredicate::StatusNe(s) => t.status != s,
        TaskPredicate::NameLike(pat) => spec_like(pat@, t.name@),
        TaskPredicate::DescriptionLike(pat) => spec_like(pat@, t.description@),
        TaskPredicate::CommandLike(pat) => spec_like(pat@, t.command@),
        TaskPredicate::CronExpressionLike(pat) => spec_like(pat@, t.cron_expression@),
        TaskPredicate::TagLike(pat) => spec_like(pat@, t.tag@),
    }
}

/// Whether one predicate holds of a task row.
pub fn pred_matches(p: &TaskPredicate, t: &Task) -> (r: bool)
    ensures
        r == spec_pred_holds(*p, *t),
{
    match p {
        TaskPredicate::IdEq(id) => t.id == *id,
        TaskPredicate::StatusEq(s) => t.status == *s,
        TaskPredicate::StatusNe(s) => t.status != *s,
        TaskPredicate::NameLike(pat) => like_match(pat.as_str(), t.name.as_str()),
        TaskPredicate::DescriptionLike(pat) => like_match(pat.as_str(), t.description.as_str()),
        TaskPredicate::CommandLike(pat) => like_match(pat.as_str(), t.command.as_str()),
        TaskPredicate::CronExpressionLike(pat) => like_match(
            pat.as_str(),
            t.cron_expression.as_str(),
        ),
        TaskPredicate::TagLike(pat) => like_match(pat.as_str(), t.tag.as_str()),
    }
}

/// Whether every predicate of the chain holds of the row.
pub open spec fn spec_preds_hold(ps: Seq<TaskPredicate>, t: Task) -> bool {
    forall|i: int| 0 <= i < ps.len() ==> spec_pred_holds(#[trigger] ps[i], t)
}

/// Whether a query shape admits a task row: all its predicates hold.
pub open spec fn spec_query_admits(q: TaskQuery, t: Task) -> bool {
    spec_preds_hold(q.predicates@, t)
}

/// Whether the query shape admits the row.
pub fn query_admits(q: &TaskQuery, t: &Task) -> (r: bool)
    ensures
        r == spec_query_admits(*q, *t),
{
    let mut i: usize = 0;
    while i < q.predicates.len()
        invariant
            i <= q.predicates@.len(),
            forall|j: int| 0 <= j < i ==> spec_pred_holds(#[trigger] q.predicates@[j], *t),
        decreases q.predicates@.len() - i,
    {
        if !pred_matches(&q.predicates[i], t) {
            return false;
        }
        i += 1;
    }
    true
}

/// The predicate chain a filter model produces: the status-visibility
/// predicate first, then one predicate per set optional field, in the
/// fixed column order.
pub open spec fn spec_filter_predicates(p: QueryParamsTask) -> Seq<TaskPredicate> {
    (match p.status {
        Some(s) => seq![TaskPredicate::StatusEq(s)],
        None => seq![TaskPredicate::StatusNe(TASK_STATE_DELETED)],
    }) + (match p.id {
        Some(id) => seq![TaskPredicate::IdEq(id)],
        None => Seq::<TaskPredicate>::empty(),
    }) + (match p.name {
        Some(pat) => seq![TaskPredicate::NameLike(pat)],
        None => Seq::<TaskPredicate>::empty(),
    }) + (match p.description {
        Some(pat) => seq![TaskPredicate::DescriptionLike(pat)],
        None => Seq::<TaskPredicate>::empty(),
    }) + (match p.command {
        Some(pat) => seq![TaskPredicate::CommandLike(pat)],
        None => Seq::<TaskPredicate>::empty(),
    }) + (match p.cron_expression {
        Some(pat) => seq![TaskPredicate::CronExpressionLike(pat)],
        None => Seq::<TaskPredicate>::empty(),
    }) + (match p.tag {
        Some(pat) => seq![TaskPredicate::TagLike(pat)],
        None => Seq::<TaskPredicate>::empty(),
    })
}

/// Appends the predicate, if there is one; the chain is otherwise untouched.
fn push_opt_pred(preds: &mut Vec<TaskPredicate>, p: Option<TaskPredicate>)
    ensures
        final(preds)@ == old(preds)@ + (if p is Some {
            seq![p->0]
        } else {
            Seq::<TaskPredicate>::empty()
        }),
{
    match p {
        Some(x) => {
            preds.push(x);
            proof {
                assert(preds@ =~= old(preds)@ + seq![x]);
            }
        },
        None => {
            proof {
                assert(preds@ =~= old(preds)@ + Seq::<TaskPredicate>::empty());
            }
        },
    }
}

impl QueryParamsTask {
    /// Applies this filter model to a query shape: appends the predicate
    /// chain of `spec_filter_predicates` — the status-visibility predicate
    /// first, where an explicitly requested status (even the deleted one)
    /// overrides the default exclusion of logically deleted rows — and
    /// sets the default ordering, primary key descending, if the shape
    /// carries none.
    pub fn query_filter(self, query: TaskQuery) -> (r: TaskQuery)
        ensures
            r.predicates@ == query.predicates@ + spec_filter_predicates(self),
            r.projection == query.projection,
            r.ordering == (if query.ordering is None {
                Some(TaskOrdering::IdDesc)
            } else {
                query.ordering
            }),
    {
        let ghost s1 = (if self.status is Some {
            seq![TaskPredicate::StatusEq(self.status->0)]
        } else {
            seq![TaskPredicate::StatusNe(TASK_STATE_DELETED)]
        });
        let ghost s2 = (if self.id is Some {
            seq![TaskPredicate::IdEq(self.id->0)]
        } else {
            Seq::<TaskPredicate>::empty()
        });
        let ghost s3 = (if self.name is Some {
            seq![TaskPredicate::NameLike(self.name->0)]
        } else {
            Seq::<TaskPredicate>::empty()
        });
        let ghost s4 = (if self.description is Some {
            seq![TaskPredicate::DescriptionLike(self.description->0)]
        } else {
            Seq::<TaskPredicate>::empty()
        });
        let ghost s5 = (if self.command is Some {
            seq![TaskPredicate::CommandLike(self.command->0)]
        } else {
            Seq::<TaskPredicate>::empty()
        });
        let ghost s6 = (if self.cron_expression is Some {
            seq![TaskPredicate::CronExpressionLike(self.cron_expression->0)]
        } else {
            Seq::<TaskPredicate>::empty()
        });
        let ghost s7 = (if self.tag is Some {
            seq![TaskPredicate::TagLike(self.tag->0)]
        } else {
            Seq::<TaskPredicate>::empty()
        });
        let mut q = query;
        push_opt_pred(
            &mut q.predicates,
            Some(
                match self.status {
                    Some(s) => TaskPredicate::StatusEq(s),
                    None => TaskPredicate::StatusNe(TASK_STATE_DELETED),
                },
            ),
        );
        proof {
            assert(q.predicates@ == query.predicates@ + s1);
        }
        push_opt_pred(
            &mut q.predicates,
            match self.id {
                Some(id) => Some(TaskPredicate::IdEq(id)),
                None => None,
            },
        );
        proof {
            assert(q.predicates@ == query.predicates@ + s1 + s2);
        }
        push_opt_pred(
            &mut q.predicates,
            match self.name {
                Some(pat) => Some(TaskPredicate::NameLike(pat)),
                None => None,
            },
        );
        proof {
            assert(q.predicates@ == query.predicates@ + s1 + s2 + s3);
        }
        push_opt_pred(
            &mut q.predicates,
            match self.description {
                Some(pat) => Some(TaskPredicate::DescriptionLike(pat)),
                None => None,
            },
        );
        proof {
            assert(q.predicates@ == query.predicates@ + s1 + s2 + s3 + s4);
        }
        push_opt_pred(
            &mut q.predicates,
            match self.command {
                Some(pat) => Some(TaskPredicate::CommandLike(pat)),
                None => None,
            },
        );
        proof {
            assert(q.predicates@ == query.predicates@ + s1 + s2 + s3 + s4 + s5);
        }
        push_opt_pred(
            &mut q.predicates,
            match self.cron_expression {
                Some(pat) => Some(TaskPredicate::CronExpressionLike(pat)),
                None => None,
            },
        );
        proof {
            assert(q.predicates@ == query.predicates@ + s1 + s2 + s3 + s4 + s5 + s6);
        }
        push_opt_pred(
            &mut q.predicates,
            match self.tag {
                Some(pat) => Some(TaskPredicate::TagLike(pat)),
                None => None,
            },
        );
        proof {
            assert(q.predicates@ == query.predicates@ + s1 + s2 + s3 + s4 + s5 + s6 + s7);
        }
        if q.ordering.is_none() {
            q.ordering = Some(TaskOrdering::IdDesc);
        }
        proof {
            let qp = query.predicates@;
            vstd::seq_lib::lemma_concat_associative(qp, s1, s2);
            vstd::seq_lib::lemma_concat_associative(qp, s1 + s2, s3);
            vstd::seq_lib::lemma_concat_associative(qp, s1 + s2 + s3, s4);
            vstd::seq_lib::lemma_concat_associative(qp, s1 + s2 + s3 + s4, s5);
            vstd::seq_lib::lemma_concat_associative(qp, s1 + s2 + s3 + s4 + s5, s6);
            vstd::seq_lib::lemma_concat_associative(qp, s1 + s2 + s3 + s4 + s5 + s6, s7);
            assert(spec_filter_predicates(self) == s1 + s2 + s3 + s4 + s5 + s6 + s7);
        }
        q
    }
}

/// A chain of two predicate lists holds exactly when both halves hold.
proof fn lemma_preds_hold_concat(a: Seq<TaskPredicate>, b: Seq<TaskPredicate>, t: Task)
    ensures
        spec_preds_hold(a + b, t) <==> (spec_preds_hold(a, t) && spec_preds_hold(b, t)),
{
    if spec_preds_hold(a + b, t) {
        assert forall|i: int| 0 <= i < a.len() implies spec_pred_holds(#[trigger] a[i], t) by {
            assert((a + b)[i] == a[i]);
        }
        assert forall|i: int| 0 <= i < b.len() implies spec_pred_holds(#[trigger] b[i], t) by {
            assert((a + b)[a.len() + i] == b[i]);
        }
    }
    if spec_preds_hold(a, t) && spec_preds_hold(b, t) {
        assert forall|i: int| 0 <= i < (a + b).len() implies spec_pred_holds(
            #[trigger] (a + b)[i],
            t,
        ) by {
            if i < a.len() {
                assert((a + b)[i] == a[i]);
            } else {
                assert((a + b)[i] == b[i - a.len()]);
            }
        }
    }
}

/// A single predicate's chain holds exactly when the predicate does.
proof fn lemma_preds_hold_singleton(p: TaskPredicate, t: Task)
    ensures
        spec_preds_hold(seq![p], t) <==> spec_pred_holds(p, t),
{
    assert(seq![p][0] == p);
}

/// The predicate chain of a filter model holds of a row exactly when the
/// model admits it.
pub proof fn lemma_filter_predicates_semantics(p: QueryParamsTask, t: Task)
    ensures
        spec_preds_hold(spec_filter_predicates(p), t) <==> spec_params_admit(p, t),
{
    let s1 = (match p.status {
        Some(s) => seq![TaskPredicate::StatusEq(s)],
        None => seq![TaskPredicate::StatusNe(TASK_STATE_DELETED)],
    });
    let s2 = (match p.id {
        Some(id) => seq![TaskPredicate::IdEq(id)],
        None => Seq::<TaskPredicate>::empty(),
    });
    let s3 = (match p.name {
        Some(pat) => seq![TaskPredicate::NameLike(pat)],
        None => Seq::<TaskPredicate>::empty(),
    });
    let s4 = (match p.description {
        Some(pat) => seq![TaskPredicate::DescriptionLike(pat)],
        None => Seq::<TaskPredicate>::empty(),
    });
    let s5 = (match p.command {
        Some(pat) => seq![TaskPredicate::CommandLike(pat)],
        None => Seq::<TaskPredicate>::empty(),
    });
    let s6 = (match p.cron_expression {
        Some(pat) => seq![TaskPredicate::CronExpressionLike(pat)],
        None => Seq::<TaskPredicate>::empty(),
    });
    let s7 = (match p.tag {
        Some(pat) => seq![TaskPredicate::TagLike(pat)],
        None => Seq::<TaskPredicate>::empty(),
    });
    lemma_preds_hold_concat(s1 + s2 + s3 + s4 + s5 + s6, s7, t);
    lemma_preds_hold_concat(s1 + s2 + s3 + s4 + s5, s6, t);
    lemma_preds_hold_concat(s1 + s2 + s3 + s4, s5, t);
    lemma_preds_hold_concat(s1 + s2 + s3, s4, t);
    lemma_preds_hold_concat(s1 + s2, s3, t);
    lemma_preds_hold_concat(s1, s2, t);
    match p.status {
        Some(s) => lemma_preds_hold_singleton(TaskPredicate::StatusEq(s), t),
        None => lemma_preds_hold_singleton(TaskPredicate::StatusNe(TASK_STATE_DELETED), t),
    }
    if let Some(id) = p.id {
        lemma_preds_hold_singleton(TaskPredicate::IdEq(id), t);
    }
    if let Some(pat) = p.name {
        lemma_preds_hold_singleton(TaskPredicate::NameLike(pat), t);
    }
    if let Some(pat) = p.description {
        lemma_preds_hold_singleton(TaskPredicate::DescriptionLike(pat), t);
    }
    if let Some(pat) = p.command {
        lemma_preds_hold_singleton(TaskPredicate::CommandLike(pat), t);
    }
    if let Some(pat) = p.cron_expression {
        lemma_preds_hold_singleton(TaskPredicate::CronExpressionLike(pat), t);
    }
    if let Some(pat) = p.tag {
        lemma_preds_hold_singleton(TaskPredicate::TagLike(pat), t);
    }
}

/// Filtering parity: a query shape run through `query_filter` admits a row
/// exactly when the shape admitted it before and the filter model admits
/// it too — so the row query and the count query, filtered with the same
/// model, agree on which rows qualify.
pub proof fn lemma_query_filter_parity(p: QueryParamsTask, q: TaskQuery, r: TaskQuery, t: Task)
    requires
        r.predicates@ == q.predicates@ + spec_filter_predicates(p),
    ensures
        spec_query_admits(r, t) <==> (spec_query_admits(q, t) && spec_params_admit(p, t)),
{
    lemma_preds_hold_concat(q.predicates@, spec_filter_predicates(p), t);
    lemma_filter_predicates_semantics(p, t);
}

/// What the narrow supply projection keeps of a task row.
pub open spec fn spec_supply_matches(s: SupplyTask, t: Task) -> bool {
    &&& s.id == t.id
    &&& s.name@ == t.name@
    &&& s.description@ == t.description@
    &&& s.command@ == t.command@
    &&& s.frequency@ == t.frequency@
    &&& s.cron_expression@ == t.cron_expression@
    &&& s.tag@ == t.tag@
}

/// Projects task rows onto the narrow supply columns, in order.
pub fn project_supply_tasks(rows: &Vec<Task>) -> (r: Vec<SupplyTask>)
    ensures
        r@.len() == rows@.len(),
        forall|i: int| 0 <= i < rows@.len() ==> spec_supply_matches(#[trigger] r@[i], rows@[i]),
{
    let mut r: Vec<SupplyTask> = Vec::new();
    let mut i: usize = 0;
    while i < rows.len()
        invariant
            i <= rows@.len(),
            r@.len() == i,
            forall|j: int| 0 <= j < i ==> spec_supply_matches(#[trigger] r@[j], rows@[j]),
        decreases rows@.len() - i,
    {
        let t = &rows[i];
        r.push(
            SupplyTask {
                id: t.id,
                name: t.name.clone(),
                description: t.description.clone(),
                command: t.command.clone(),
                frequency: t.frequency.clone(),
                cron_expression: t.cron_expression.clone(),
                tag: t.tag.clone(),
            },
        );
        i += 1;
    }
    r
}

/// The supply export of the list call: the same admitted rows, in the same
/// order and page cut as the listing, projected onto the supply columns.
pub fn list_supply_tasks(table: Vec<Task>, params: &QueryParamsTask) -> (r: Vec<SupplyTask>)
    requires
        table@.len() < 0x8000000000000000,
    ensures
        r@.len() == spec_listed_tasks(table@, *params).len(),
        forall|i: int|
            0 <= i < r@.len() ==> spec_supply_matches(
                #[trigger] r@[i],
                spec_listed_tasks(table@, *params)[i],
            ),
{
    let page = list_tasks(table, params);
    project_supply_tasks(&page.tasks)
}

} // verus!
