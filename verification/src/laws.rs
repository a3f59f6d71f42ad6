//! Properties of the list pipeline that relate several functions, stated
//! over the same spec functions their contracts use and proved once.

use crate::pagination::{
    lemma_pages_partition, spec_accumulated_pages, spec_offset, spec_page_slice, spec_total_pages,
};
use crate::sort::{
    lemma_sort_desc_all, lemma_sort_desc_len, lemma_sort_desc_sorted, spec_sort_desc, Keyed,
};
use crate::state::TASK_STATE_DELETED;
use crate::task::{
    lemma_admitted_pred, spec_admitted_tasks, spec_listed_tasks, spec_params_admit, QueryParamsTask,
    Task,
};
use vstd::prelude::*;

verus! {

/// A valid table snapshot: `id` is the primary key, so no two rows share it.
pub open spec fn spec_unique_ids(s: Seq<Task>) -> bool {
    forall|i: int, j: int| 0 <= i < j < s.len() ==> s[i].id != s[j].id
}

/// A filter for an identifier no row carries admits nothing.
proof fn lemma_admitted_excluded(s: Seq<Task>, p: QueryParamsTask, id: i64)
    requires
        p.id == Some(id),
        forall|i: int| 0 <= i < s.len() ==> (#[trigger] s[i]).id != id,
    ensures
        spec_admitted_tasks(s, p).len() == 0,
    decreases s.len(),
{
    if s.len() == 0 {
    } else {
        assert(forall|i: int|
            0 <= i < s.drop_last().len() ==> (#[trigger] s.drop_last()[i]).id != id);
        lemma_admitted_excluded(s.drop_last(), p, id);
        assert(s[s.len() - 1].id != id);
        assert(!spec_params_admit(p, s.last()));
    }
}

/// With the identifier field set and ids unique, at most one row qualifies.
proof fn lemma_admitted_at_most_one(s: Seq<Task>, p: QueryParamsTask)
    requires
        spec_unique_ids(s),
        p.id is Some,
    ensures
        spec_admitted_tasks(s, p).len() <= 1,
    decreases s.len(),
{
    if s.len() == 0 {
    } else {
        let rest = s.drop_last();
        assert(spec_unique_ids(rest)) by {
            assert(forall|i: int, j: int|
                0 <= i < j < rest.len() ==> rest[i] == s[i] && rest[j] == s[j]);
        }
        lemma_admitted_at_most_one(rest, p);
        if spec_params_admit(p, s.last()) {
            let id = p.id->0;
            assert(s[s.len() - 1].id == id);
            assert forall|i: int| 0 <= i < rest.len() implies (#[trigger] rest[i]).id != id by {
                assert(rest[i] == s[i]);
                assert(s[i].id != s[s.len() - 1].id);
            }
            lemma_admitted_excluded(rest, p, id);
        }
    }
}

/// For a filter with only the identifier field set, the listing holds at
/// most one row; asked on the first page with any positive page size, it
/// returns every qualifying row, so the total the count query reports
/// equals the number of rows returned.
pub proof fn lemma_identifier_filter(table: Seq<Task>, p: QueryParamsTask)
    requires
        spec_unique_ids(table),
        p.id is Some,
        p.status is None,
        p.name is None,
        p.description is None,
        p.command is None,
        p.cron_expression is None,
        p.tag is None,
        p.page <= 1,
        p.per_page >= 1,
    ensures
        spec_listed_tasks(table, p).len() <= 1,
        spec_admitted_tasks(table, p).len() == spec_listed_tasks(table, p).len(),
{
    lemma_admitted_at_most_one(table, p);
    let admitted = spec_admitted_tasks(table, p);
    lemma_sort_desc_len(admitted);
    let sorted = spec_sort_desc(admitted);
    assert(spec_offset(p.page as int, p.per_page as int) == 0) by {
        let pp = crate::pagination::spec_clamped_per_page(p.per_page as int);
        assert(0 * pp == 0) by (nonlinear_arith);
    }
    if sorted.len() == 0 {
        assert(spec_page_slice(sorted, p.page as int, p.per_page as int) =~= sorted);
    } else {
        assert(spec_page_slice(sorted, p.page as int, p.per_page as int) =~= sorted);
    }
}

/// Default visibility: with the status field unset, a row with the
/// logically deleted status never appears in the listing.
pub proof fn lemma_default_visibility(table: Seq<Task>, p: QueryParamsTask)
    requires
        p.status is None,
    ensures
        forall|i: int|
            0 <= i < spec_listed_tasks(table, p).len() ==> (#[trigger] spec_listed_tasks(
                table,
                p,
            )[i]).status != TASK_STATE_DELETED,
{
    let admitted = spec_admitted_tasks(table, p);
    let sorted = spec_sort_desc(admitted);
    let visible = |t: Task| t.status != TASK_STATE_DELETED;
    lemma_admitted_pred(table, p);
    assert(forall|i: int| 0 <= i < admitted.len() ==> visible(#[trigger] admitted[i]));
    lemma_sort_desc_all(admitted, visible);
    let listed = spec_listed_tasks(table, p);
    let off = spec_offset(p.page as int, p.per_page as int);
    assert forall|i: int| 0 <= i < listed.len() implies (#[trigger] listed[i]).status
        != TASK_STATE_DELETED by {
        assert(listed[i] == sorted[off + i]);
        assert(visible(sorted[off + i]));
    }
}

/// The listing is deterministically ordered: primary key descending,
/// within every page.
pub proof fn lemma_listed_ordered(table: Seq<Task>, p: QueryParamsTask)
    ensures
        forall|i: int, j: int|
            0 <= i < j < spec_listed_tasks(table, p).len() ==> (#[trigger] spec_listed_tasks(
                table,
                p,
            )[i]).id >= (#[trigger] spec_listed_tasks(table, p)[j]).id,
{
    let admitted = spec_admitted_tasks(table, p);
    let sorted = spec_sort_desc(admitted);
    lemma_sort_desc_sorted(admitted);
    let listed = spec_listed_tasks(table, p);
    let off = spec_offset(p.page as int, p.per_page as int);
    assert forall|i: int, j: int| 0 <= i < j < listed.len() implies (#[trigger] listed[i]).id
        >= (#[trigger] listed[j]).id by {
        assert(listed[i] == sorted[off + i]);
        assert(listed[j] == sorted[off + j]);
        assert(sorted[off + i].spec_key() >= sorted[off + j].spec_key());
    }
}

/// Idempotence: two list calls over the same table snapshot with the same
/// filter — no intervening writes — return identical ordered sequences.
pub proof fn lemma_list_idempotent(table: Seq<Task>, p: QueryParamsTask, r1: Seq<Task>, r2: Seq<Task>)
    requires
        r1 == spec_listed_tasks(table, p),
        r2 == spec_listed_tasks(table, p),
    ensures
        r1 == r2,
{
}

/// Pagination is exhaustive and disjoint: accumulating the pages
/// `1..=total_page` of the ordered admitted rows yields exactly that
/// sequence — every admitted row once, no duplicates, no gaps — and
/// `total_page` is derived from the same admitted row count the count
/// query reports.
pub proof fn lemma_task_pages_partition(table: Seq<Task>, p: QueryParamsTask)
    ensures
        spec_accumulated_pages(
            spec_sort_desc(spec_admitted_tasks(table, p)),
            p.per_page as int,
            spec_total_pages(spec_admitted_tasks(table, p).len() as int, p.per_page as int),
        ) == spec_sort_desc(spec_admitted_tasks(table, p)),
        spec_sort_desc(spec_admitted_tasks(table, p)).len() == spec_admitted_tasks(table, p).len(),
{
    let admitted = spec_admitted_tasks(table, p);
    lemma_sort_desc_len(admitted);
    lemma_pages_partition(spec_sort_desc(admitted), p.per_page as int);
}

} // verus!
