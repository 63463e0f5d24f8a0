//! Paging through research results.

use jueming::research::{
    check_run_project, group_counts, group_window, GroupCount, next_cursor, occurrence_status, page_plan, pending_count,
    total_occurrences,
};

#[test]
fn a_page_reads_the_page_files_it_overlaps() {
    let pages = vec![3, 0, 4, 2];
    assert_eq!(total_occurrences(&pages), 9);
    assert_eq!(page_plan(&pages, 0, 5), vec![Some((0, 3)), Some((0, 0)), Some((0, 2)), None]);
    assert_eq!(page_plan(&pages, 4, 200), vec![None, None, Some((1, 3)), Some((0, 2))]);
    assert_eq!(page_plan(&pages, 9, 10), vec![None, None, None, None]);
    assert_eq!(page_plan(&pages, 2, 0), vec![Some((2, 1)), None, None, None]);
    assert_eq!(next_cursor(4, 5, 9), None);
    assert_eq!(next_cursor(0, 5, 9), Some(5));
}

#[test]
fn consecutive_pages_serve_every_occurrence_once() {
    let pages = vec![5, 1, 0, 7, 3];
    let total = total_occurrences(&pages);
    let mut cursor = 0;
    let mut served = 0;
    loop {
        let plan = page_plan(&pages, cursor, 4);
        let n: usize = plan.iter().flatten().map(|(_, take)| take).sum();
        served += n;
        match next_cursor(cursor, n, total) {
            Some(next) => cursor = next as usize,
            None => break,
        }
    }
    assert_eq!(served, total);
}

#[test]
fn group_windows_count_and_select_by_rank() {
    let groups: Vec<Option<String>> = vec![
        Some("a".into()),
        None,
        Some("b".into()),
        Some("a".into()),
        Some("a".into()),
    ];
    assert_eq!(group_window(&groups, "a", 0, 2), (vec![0, 3], 3));
    assert_eq!(group_window(&groups, "a", 1, 200), (vec![3, 4], 3));
    assert_eq!(group_window(&groups, "b", 5, 1), (vec![], 1));
}

#[test]
fn judged_occurrences_are_confirmed_while_unchanged() {
    assert_eq!(occurrence_status(false, true), None);
    assert_eq!(occurrence_status(true, true), Some("confirmed"));
    assert_eq!(occurrence_status(true, false), Some("needs_review"));
    assert_eq!(pending_count(10, 4), 6);
    assert_eq!(pending_count(3, 4), 0);
    assert!(check_run_project(7, 7).is_ok());
    assert_eq!(check_run_project(7, 8), Err("run project mismatch".to_string()));
}

#[test]
fn summary_groups_count_judgements_by_name_then_strategy() {
    let j = |g: &str, s: &str| (g.to_string(), s.to_string());
    let judgements = vec![j("省译", ""), j("术语", "直译"), j("省译", ""), j("术语", "意译"), j("Alpha", "x")];
    let g = |name: &str, strategy: &str, count: usize| GroupCount {
        name: name.into(),
        strategy: strategy.into(),
        count,
    };
    assert_eq!(
        group_counts(&judgements),
        vec![g("Alpha", "x", 1), g("术语", "意译", 1), g("术语", "直译", 1), g("省译", "", 2)]
    );
    assert!(group_counts(&vec![]).is_empty());
}
