use dotatui::nav::{move_cursor, revalidate, select_first, select_last, select_next, select_previous, Move};

#[test]
fn next_wraps_from_last_to_first() {
    assert_eq!(select_next(Some(2), 3), Some(0));
    assert_eq!(select_next(Some(0), 3), Some(1));
}

#[test]
fn previous_wraps_from_first_to_last() {
    assert_eq!(select_previous(Some(0), 3), Some(2));
    assert_eq!(select_previous(Some(2), 3), Some(1));
}

#[test]
fn empty_list_has_no_cursor() {
    assert_eq!(select_next(None, 0), None);
    assert_eq!(select_previous(None, 0), None);
    assert_eq!(select_first(0), None);
    assert_eq!(select_last(0), None);
    assert_eq!(revalidate(Some(4), 0), None);
}

#[test]
fn next_then_previous_returns_to_start() {
    for n in 1..6usize {
        for i in 0..n {
            let there = select_next(Some(i), n);
            assert_eq!(select_previous(there, n), Some(i));
            let back = select_previous(Some(i), n);
            assert_eq!(select_next(back, n), Some(i));
        }
    }
    assert_eq!(select_previous(select_next(None, 0), 0), None);
}

#[test]
fn cursor_starts_at_first_row() {
    assert_eq!(select_next(None, 4), Some(0));
    assert_eq!(select_previous(None, 4), Some(0));
}

#[test]
fn top_and_bottom() {
    assert_eq!(select_first(5), Some(0));
    assert_eq!(select_last(5), Some(4));
    assert_eq!(move_cursor(Some(2), 5, Move::Last), Some(4));
    assert_eq!(move_cursor(Some(2), 5, Move::First), Some(0));
}

#[test]
fn revalidate_clamps_after_shrink() {
    assert_eq!(revalidate(Some(7), 3), Some(2));
    assert_eq!(revalidate(Some(1), 3), Some(1));
    assert_eq!(revalidate(None, 3), Some(0));
}

#[test]
fn cursor_stays_in_range_for_every_start() {
    for n in 0..5usize {
        for i in 0..8usize {
            for r in [select_next(Some(i), n), select_previous(Some(i), n), revalidate(Some(i), n)] {
                match r {
                    None => assert_eq!(n, 0),
                    Some(j) => assert!(j < n),
                }
            }
        }
    }
}
