use pokedex::{StatefulList, SwitchableTableState};

fn list_at(items: Vec<i32>, steps: usize) -> StatefulList<i32> {
    let mut l = StatefulList::with_items(items);
    for _ in 0..steps {
        l.next();
    }
    l
}

#[test]
fn with_items_puts_cursor_on_first() {
    let l = StatefulList::with_items(vec![10, 20, 30]);
    assert_eq!(l.selected(), Some(0));
    assert_eq!(l.get_selected(), Some(&10));
    assert_eq!(l.visible_len(), 3);
    let empty: StatefulList<i32> = StatefulList::with_items(vec![]);
    assert_eq!(empty.selected(), None);
    assert_eq!(empty.get_selected(), None);
}

#[test]
fn next_wraps_from_last_to_first() {
    let mut l = list_at(vec![1, 2, 3], 2);
    assert_eq!(l.get_selected(), Some(&3));
    l.next();
    assert_eq!(l.selected(), Some(0));
}

#[test]
fn previous_wraps_from_first_to_last() {
    let mut l = StatefulList::with_items(vec![1, 2, 3]);
    l.previous();
    assert_eq!(l.selected(), Some(2));
    l.previous();
    assert_eq!(l.selected(), Some(1));
}

#[test]
fn next_as_many_times_as_entries_returns_to_start() {
    for start in 0..4 {
        let mut l = list_at(vec![5, 6, 7, 8], start);
        assert_eq!(l.selected(), Some(start));
        for _ in 0..l.visible_len() {
            l.next();
        }
        assert_eq!(l.selected(), Some(start));
    }
}

#[test]
fn previous_undoes_next_everywhere() {
    for start in 0..3 {
        let mut l = list_at(vec![1, 2, 3], start);
        l.next();
        l.previous();
        assert_eq!(l.selected(), Some(start));
        assert_eq!(l.visible_len(), 3);
    }
}

#[test]
fn navigation_on_empty_filter_is_a_no_op() {
    let mut l = StatefulList::with_items(vec![1, 2, 3]);
    l.apply_filter(|x: &i32| *x > 10);
    assert_eq!(l.visible_len(), 0);
    assert_eq!(l.selected(), None);
    l.next();
    l.previous();
    assert_eq!(l.selected(), None);
    assert_eq!(l.get_selected(), None);
}

#[test]
fn filter_keeps_order_and_backing_entries() {
    let mut l = list_at(vec![4, 9, 2, 7, 6], 3);
    l.apply_filter(|x: &i32| x % 2 == 0);
    assert_eq!(l.visible_len(), 3);
    assert_eq!(*l.visible_at(0), 4);
    assert_eq!(*l.visible_at(1), 2);
    assert_eq!(*l.visible_at(2), 6);
    assert_eq!(l.selected(), Some(0));
    assert_eq!(l.all_len(), 5);
    assert_eq!(*l.all_at(1), 9);
}

#[test]
fn filter_by_identity_restores_everything() {
    let mut l = StatefulList::with_items(vec![3, 1, 2]);
    l.apply_filter(|x: &i32| *x == 1);
    l.apply_filter(|_: &i32| true);
    assert_eq!(l.visible_len(), 3);
    assert_eq!(*l.visible_at(0), 3);
    assert_eq!(*l.visible_at(1), 1);
    assert_eq!(*l.visible_at(2), 2);
    assert_eq!(l.selected(), Some(0));
}

#[test]
fn table_state_steps_through_rows() {
    let mut t = SwitchableTableState::new();
    assert_eq!(t.get_selected(), None);
    t.next(Some(3));
    assert_eq!(t.get_selected(), Some(0));
    t.previous(Some(3));
    assert_eq!(t.get_selected(), Some(2));
    t.next(Some(3));
    assert_eq!(t.get_selected(), Some(0));
    t.next(None);
    assert_eq!(t.get_selected(), Some(0));
    t.previous(Some(0));
    assert_eq!(t.get_selected(), Some(0));
    let mut u = SwitchableTableState::new();
    u.previous(Some(4));
    assert_eq!(u.get_selected(), Some(0));
}
