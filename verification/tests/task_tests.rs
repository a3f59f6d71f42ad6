use delicate_scheduler::state::{TASK_STATE_DELETED, TASK_STATE_ENABLED, TASK_STATE_STOPPED};
use delicate_scheduler::task::{
    count_tasks, list_supply_tasks, list_tasks, query_admits, QueryParamsTask, Task,
    TaskPredicate, TaskProjection, TaskQueryBuilder,
};

fn mk_task(id: i64, name: &str, status: i16) -> Task {
    Task {
        id,
        name: String::from(name),
        description: String::from("desc"),
        command: String::from("/bin/run"),
        frequency: String::from("repeat"),
        cron_expression: String::from("0 0 * * *"),
        timeout: 60,
        retry_times: 3,
        retry_interval: 5,
        maximun_parallel_runnable_num: 1,
        tag: String::from("batch"),
        status,
        created_time: 1_600_000_000,
        deleted_time: None,
    }
}

fn demo_table() -> Vec<Task> {
    vec![
        mk_task(1, "backup db", TASK_STATE_ENABLED),
        mk_task(2, "backup files", TASK_STATE_STOPPED),
        mk_task(3, "backfill", TASK_STATE_DELETED),
        mk_task(4, "report", TASK_STATE_ENABLED),
        mk_task(5, "backup logs", TASK_STATE_DELETED),
    ]
}

fn no_filter() -> QueryParamsTask {
    QueryParamsTask {
        id: None,
        name: None,
        description: None,
        command: None,
        cron_expression: None,
        tag: None,
        status: None,
        per_page: 10,
        page: 1,
    }
}

#[test]
fn default_visibility_hides_deleted_rows() {
    let page = list_tasks(demo_table(), &no_filter());
    let ids: Vec<i64> = page.tasks.iter().map(|t| t.id).collect();
    assert_eq!(ids, vec![4, 2, 1]);
    assert!(page.tasks.iter().all(|t| t.status != TASK_STATE_DELETED));
}

#[test]
fn rows_come_in_descending_id_order() {
    let page = list_tasks(demo_table(), &no_filter());
    let ids: Vec<i64> = page.tasks.iter().map(|t| t.id).collect();
    let mut sorted = ids.clone();
    sorted.sort();
    sorted.reverse();
    assert_eq!(ids, sorted);
}

#[test]
fn name_pattern_excludes_deleted_even_when_it_matches() {
    // "back%" matches rows 1, 2, 3, 5, but 3 and 5 are logically deleted
    let mut params = no_filter();
    params.name = Some(String::from("back%"));
    let page = list_tasks(demo_table(), &params);
    let ids: Vec<i64> = page.tasks.iter().map(|t| t.id).collect();
    assert_eq!(ids, vec![2, 1]);
    for t in &page.tasks {
        assert!(t.name.starts_with("back"));
        assert!(t.status != TASK_STATE_DELETED);
    }
}

#[test]
fn explicit_status_overrides_the_default_exclusion() {
    let mut params = no_filter();
    params.status = Some(TASK_STATE_DELETED);
    let page = list_tasks(demo_table(), &params);
    let ids: Vec<i64> = page.tasks.iter().map(|t| t.id).collect();
    assert_eq!(ids, vec![5, 3]);
}

#[test]
fn identifier_filter_returns_at_most_one_row_and_count_agrees() {
    let mut params = no_filter();
    params.id = Some(2);
    let count = count_tasks(&demo_table(), &params);
    let page = list_tasks(demo_table(), &params);
    assert_eq!(page.tasks.len(), 1);
    assert_eq!(count, page.tasks.len() as i64);
    assert_eq!(page.tasks[0].id, 2);

    params.id = Some(77);
    let count = count_tasks(&demo_table(), &params);
    let page = list_tasks(demo_table(), &params);
    assert_eq!(page.tasks.len(), 0);
    assert_eq!(count, 0);
}

#[test]
fn count_and_listing_agree_for_any_filter() {
    let mut params = no_filter();
    params.name = Some(String::from("back%"));
    let count = count_tasks(&demo_table(), &params);
    params.per_page = 100;
    let page = list_tasks(demo_table(), &params);
    assert_eq!(count, page.tasks.len() as i64);
}

#[test]
fn identical_calls_return_identical_sequences() {
    let page_one = list_tasks(demo_table(), &no_filter());
    let page_two = list_tasks(demo_table(), &no_filter());
    assert_eq!(page_one.tasks, page_two.tasks);
}

#[test]
fn pagination_arithmetic_on_a_large_table() {
    // total=25 visible rows, per_page=10, page=2 -> 10 rows, offset 10, 3 pages
    let mut table = Vec::new();
    for id in 1..=25 {
        table.push(mk_task(id, "job", TASK_STATE_ENABLED));
    }
    let mut params = no_filter();
    params.per_page = 10;
    params.page = 2;
    let page = list_tasks(table, &params);
    assert_eq!(page.tasks.len(), 10);
    assert_eq!(page.total_page, 3);
    // descending order: page 2 holds ids 15..=6
    assert_eq!(page.tasks[0].id, 15);
    assert_eq!(page.tasks[9].id, 6);
}

#[test]
fn empty_table_gives_empty_page_and_zero_pages() {
    let page = list_tasks(Vec::new(), &no_filter());
    assert_eq!(page.tasks.len(), 0);
    assert_eq!(page.total_page, 0);
}

#[test]
fn accumulating_all_pages_yields_every_visible_row_once() {
    let mut params = no_filter();
    params.per_page = 2;
    let first = list_tasks(demo_table(), &params);
    let mut seen: Vec<i64> = Vec::new();
    for p in 1..=first.total_page {
        params.page = p;
        let page = list_tasks(demo_table(), &params);
        seen.extend(page.tasks.iter().map(|t| t.id));
    }
    assert_eq!(seen, vec![4, 2, 1]);
}

#[test]
fn query_shapes_share_one_predicate_chain() {
    let mut params_rows = no_filter();
    params_rows.name = Some(String::from("back%"));
    let mut params_count = no_filter();
    params_count.name = Some(String::from("back%"));

    let rows_query = params_rows.query_filter(TaskQueryBuilder::query_all_columns());
    let count_query = params_count.query_filter(TaskQueryBuilder::query_count());
    assert_eq!(rows_query.projection, TaskProjection::AllColumns);
    assert_eq!(count_query.projection, TaskProjection::CountStar);
    assert_eq!(rows_query.predicates, count_query.predicates);
    assert_eq!(
        rows_query.predicates,
        vec![
            TaskPredicate::StatusNe(TASK_STATE_DELETED),
            TaskPredicate::NameLike(String::from("back%")),
        ]
    );

    let visible = mk_task(1, "backup db", TASK_STATE_ENABLED);
    let deleted = mk_task(3, "backfill", TASK_STATE_DELETED);
    let other = mk_task(4, "report", TASK_STATE_ENABLED);
    assert!(query_admits(&rows_query, &visible));
    assert!(!query_admits(&rows_query, &deleted));
    assert!(!query_admits(&count_query, &other));
}

#[test]
fn supply_projection_keeps_the_narrow_columns() {
    let shape = TaskQueryBuilder::query_supply_task_log();
    assert_eq!(shape.projection, TaskProjection::SupplyColumns);
    let supply = list_supply_tasks(demo_table(), &no_filter());
    assert_eq!(supply.len(), 3);
    assert_eq!(supply[0].id, 4);
    assert_eq!(supply[0].name, "report");
    assert_eq!(supply[0].cron_expression, "0 0 * * *");
}
