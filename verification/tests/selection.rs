use zwm::selection::select_windows;

#[test]
fn main_window_is_left_out() {
    let sel = select_windows(vec![10, 20, 30, 40], 30);
    assert_eq!(sel.primary, Some(10));
    assert_eq!(sel.auxiliary, vec![20, 40]);
}

#[test]
fn main_window_first() {
    let sel = select_windows(vec![30, 20, 10], 30);
    assert_eq!(sel.primary, Some(20));
    assert_eq!(sel.auxiliary, vec![10]);
}

#[test]
fn main_window_absent_keeps_all() {
    let sel = select_windows(vec![1, 2, 3], 9);
    assert_eq!(sel.primary, Some(1));
    assert_eq!(sel.auxiliary, vec![2, 3]);
}

#[test]
fn only_main_window_leaves_nothing() {
    let sel = select_windows(vec![7], 7);
    assert_eq!(sel.primary, None);
    assert!(sel.auxiliary.is_empty());
}

#[test]
fn no_windows() {
    let sel = select_windows(Vec::new(), 7);
    assert_eq!(sel.primary, None);
    assert!(sel.auxiliary.is_empty());
}

#[test]
fn only_first_occurrence_removed() {
    let sel = select_windows(vec![5, 7, 8, 7], 7);
    assert_eq!(sel.primary, Some(5));
    assert_eq!(sel.auxiliary, vec![8, 7]);
}

#[test]
fn one_other_window_is_primary_only() {
    let sel = select_windows(vec![7, 4], 7);
    assert_eq!(sel.primary, Some(4));
    assert!(sel.auxiliary.is_empty());
}
