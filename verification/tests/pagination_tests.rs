use delicate_scheduler::pagination::{clamped_page, clamped_per_page, page_slice, total_pages};

#[test]
fn total_pages_ceil() {
    // total=25, per_page=10 -> 3 pages
    assert_eq!(total_pages(25, 10), 3);
    assert_eq!(total_pages(30, 10), 3);
    assert_eq!(total_pages(31, 10), 4);
    assert_eq!(total_pages(1, 10), 1);
    assert_eq!(total_pages(10, 1), 10);
}

#[test]
fn total_pages_empty_total_is_zero() {
    // total=0, per_page=10 -> 0 pages
    assert_eq!(total_pages(0, 10), 0);
    assert_eq!(total_pages(-5, 10), 0);
}

#[test]
fn total_pages_clamps_page_size() {
    // per_page <= 0 behaves as per_page = 1
    assert_eq!(total_pages(7, 0), 7);
    assert_eq!(total_pages(7, -3), 7);
}

#[test]
fn clamping_smallest_valid_values() {
    assert_eq!(clamped_page(0), 1);
    assert_eq!(clamped_page(-7), 1);
    assert_eq!(clamped_page(4), 4);
    assert_eq!(clamped_per_page(0), 1);
    assert_eq!(clamped_per_page(-1), 1);
    assert_eq!(clamped_per_page(25), 25);
}

#[test]
fn page_slice_middle_page() {
    // 25 rows, per_page=10, page=2 -> rows 10..20, i.e. offset 10
    let rows: Vec<i64> = (0..25).collect();
    let page = page_slice(rows, 2, 10);
    assert_eq!(page, (10..20).collect::<Vec<i64>>());
}

#[test]
fn page_slice_last_page_is_short() {
    let rows: Vec<i64> = (0..25).collect();
    let page = page_slice(rows, 3, 10);
    assert_eq!(page, (20..25).collect::<Vec<i64>>());
}

#[test]
fn page_slice_past_the_end_is_empty() {
    let rows: Vec<i64> = (0..25).collect();
    let page = page_slice(rows, 4, 10);
    assert_eq!(page, Vec::<i64>::new());
}

#[test]
fn page_slice_of_empty_is_empty() {
    let rows: Vec<i64> = Vec::new();
    let page = page_slice(rows, 1, 10);
    assert_eq!(page, Vec::<i64>::new());
}

#[test]
fn pages_accumulate_to_the_whole_sequence() {
    // every row exactly once across pages 1..=total_page
    let rows: Vec<i64> = (0..25).collect();
    let per_page = 10;
    let tp = total_pages(rows.len() as i64, per_page);
    assert_eq!(tp, 3);
    let mut seen: Vec<i64> = Vec::new();
    for p in 1..=tp {
        let mut chunk = page_slice(rows.clone(), p, per_page);
        seen.append(&mut chunk);
    }
    assert_eq!(seen, rows);
}
