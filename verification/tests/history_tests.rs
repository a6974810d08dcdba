use snapmark_core::history::UndoHistory;

#[test]
fn undo_redo_flow() {
    let mut history = UndoHistory::new(vec![1]);
    history.push_snapshot(vec![1, 2]);
    history.push_snapshot(vec![1, 2, 3]);

    assert_eq!(history.undo(), Some(vec![1, 2]));
    assert_eq!(history.undo(), Some(vec![1]));
    assert_eq!(history.undo(), None);

    assert_eq!(history.redo(), Some(vec![1, 2]));
    history.push_snapshot(vec![9]);
    assert_eq!(history.redo(), None);
}

#[test]
fn push_prunes_redo_branch() {
    let mut history = UndoHistory::new(vec![0]);
    history.push_snapshot(vec![0, 1]);
    history.push_snapshot(vec![0, 1, 2]);
    assert_eq!(history.undo(), Some(vec![0, 1]));
    // pushing here discards the redo branch holding [0, 1, 2]
    history.push_snapshot(vec![7]);
    assert!(!history.can_redo());
    assert_eq!(history.undo(), Some(vec![0, 1]));
    assert_eq!(history.redo(), Some(vec![7]));
    assert_eq!(history.redo(), None);
}

#[test]
fn clear_with_resets_to_single_entry() {
    let mut history = UndoHistory::new(vec![1]);
    history.push_snapshot(vec![1, 2]);
    history.clear_with(vec![5]);
    assert!(!history.can_undo());
    assert!(!history.can_redo());
    assert_eq!(history.undo(), None);
    assert_eq!(history.redo(), None);
}

#[test]
fn can_undo_and_can_redo_follow_the_cursor() {
    let mut history = UndoHistory::new(String::from("a"));
    assert!(!history.can_undo());
    assert!(!history.can_redo());
    history.push_snapshot(String::from("b"));
    assert!(history.can_undo());
    assert!(!history.can_redo());
    assert_eq!(history.undo(), Some(String::from("a")));
    assert!(!history.can_undo());
    assert!(history.can_redo());
}
