use inventory_service::pagination::{next_cursor, Pagination, DEFAULT_PAGE_SIZE, MAX_PAGE_SIZE};

/// Selects a page from the ids of a table, as the list queries do.
fn select(ids: &[i32], c: &Pagination) -> Vec<i32> {
    ids.iter()
        .copied()
        .filter(|id| c.last_id.map_or(true, |l| *id > l))
        .take(c.page_size as usize)
        .collect()
}

#[test]
fn default_cursor_starts_at_the_beginning() {
    let p = Pagination::default();
    assert_eq!(p, Pagination { last_id: None, page_size: 10 });
    assert_eq!(Pagination::resolve(None), p);
    assert_eq!(DEFAULT_PAGE_SIZE, 10);
}

#[test]
fn resolve_clamps_page_size() {
    let p = Pagination::resolve(Some(Pagination { last_id: Some(5), page_size: 0 }));
    assert_eq!(p, Pagination { last_id: Some(5), page_size: 1 });
    let p = Pagination::resolve(Some(Pagination { last_id: None, page_size: -3 }));
    assert_eq!(p.page_size, 1);
    let p = Pagination::resolve(Some(Pagination { last_id: None, page_size: 1_000_000 }));
    assert_eq!(p.page_size, MAX_PAGE_SIZE);
    let p = Pagination::resolve(Some(Pagination { last_id: Some(3), page_size: 100 }));
    assert_eq!(p, Pagination { last_id: Some(3), page_size: 100 });
}

#[test]
fn next_cursor_after_full_and_short_pages() {
    let c = Pagination { last_id: None, page_size: 3 };
    assert_eq!(
        next_cursor(&c, &vec![1, 4, 7]),
        Some(Pagination { last_id: Some(7), page_size: 3 })
    );
    assert_eq!(next_cursor(&c, &vec![1, 4]), None);
    assert_eq!(next_cursor(&c, &vec![]), None);
}

#[test]
fn page_respects_cursor_bounds() {
    let ids = [2, 3, 5, 8, 13, 21, 34];
    let c = Pagination { last_id: Some(5), page_size: 3 };
    let page = select(&ids, &c);
    assert_eq!(page, vec![8, 13, 21]);
    assert!(page.len() as i64 <= c.page_size);
    assert!(page.windows(2).all(|w| w[0] < w[1]));
    assert!(page.iter().all(|id| *id > 5));
}

#[test]
fn paging_to_exhaustion_visits_every_row_once() {
    let ids: Vec<i32> = vec![1, 2, 4, 7, 9, 10, 15, 20, 22, 30];
    for size in 1..=12 {
        let mut cursor = Some(Pagination { last_id: None, page_size: size });
        let mut seen: Vec<i32> = Vec::new();
        while let Some(c) = cursor {
            let page = select(&ids, &c);
            seen.extend(page.iter().copied());
            cursor = next_cursor(&c, &page);
        }
        assert_eq!(seen, ids);
    }
}

#[test]
fn exact_multiple_ends_with_empty_page() {
    let ids = [1, 2, 3, 4];
    let c = Pagination { last_id: None, page_size: 2 };
    let first = select(&ids, &c);
    let after_first = next_cursor(&c, &first).unwrap();
    let second = select(&ids, &after_first);
    assert_eq!(second, vec![3, 4]);
    let after_second = next_cursor(&after_first, &second).unwrap();
    let third = select(&ids, &after_second);
    assert!(third.is_empty());
    assert_eq!(next_cursor(&after_second, &third), None);
}

#[test]
fn twenty_three_rows_in_pages_of_ten() {
    let ids: Vec<i32> = (1..=23).collect();
    let first_cursor = Pagination::resolve(Some(Pagination::default()));
    let first = select(&ids, &first_cursor);
    let second_cursor = Pagination { last_id: Some(*first.last().unwrap()), page_size: 10 };
    let second = select(&ids, &second_cursor);
    let third_cursor = Pagination { last_id: Some(*second.last().unwrap()), page_size: 10 };
    let third = select(&ids, &third_cursor);
    let fourth_cursor = Pagination { last_id: Some(*third.last().unwrap()), page_size: 10 };
    let fourth = select(&ids, &fourth_cursor);
    assert_eq!(
        (first.len(), second.len(), third.len(), fourth.len()),
        (10, 10, 3, 0)
    );
    assert_eq!(next_cursor(&third_cursor, &third), None);
}
