use nfm::viewport::Viewport;

#[test]
fn follow_scroll_down() {
    // 20 entries, 5 visible rows: five MoveDown steps leave the
    // selection on the last visible row with the scroll following by
    // exactly the overflow amount.
    let mut v = Viewport::new();
    for _ in 0..5 {
        v.move_selection(1, 20, 5);
    }
    assert_eq!(v.selection, 5);
    assert_eq!(v.scroll, 1);
}

#[test]
fn follow_scroll_up() {
    let mut v = Viewport { selection: 3, scroll: 3 };
    v.move_selection(-1, 20, 5);
    assert_eq!(v.selection, 2);
    assert_eq!(v.scroll, 2);
}

#[test]
fn selection_clamps_at_both_ends() {
    let mut v = Viewport::new();
    v.move_selection(-1, 20, 5);
    assert_eq!(v.selection, 0);
    v.move_selection(100, 20, 5);
    assert_eq!(v.selection, 19);
    v.move_selection(1, 20, 5);
    assert_eq!(v.selection, 19);
    assert_eq!(v.scroll, 15);
}

#[test]
fn empty_list_pins_everything_to_zero() {
    let mut v = Viewport::new();
    v.move_selection(1, 0, 5);
    v.scroll_by(1, 0, 5);
    v.jump_end(0, 5);
    v.reclamp(0, 5);
    assert_eq!(v.selection, 0);
    assert_eq!(v.scroll, 0);
}

#[test]
fn scrolling_pulls_selection_along() {
    let mut v = Viewport::new();
    v.scroll_by(1, 20, 5);
    assert_eq!(v.scroll, 1);
    assert_eq!(v.selection, 1);
    v.scroll_by(100, 20, 5);
    assert_eq!(v.scroll, 15);
    assert_eq!(v.selection, 15);
    v.scroll_by(-100, 20, 5);
    assert_eq!(v.scroll, 0);
    assert_eq!(v.selection, 4);
}

#[test]
fn jump_end_never_overscrolls() {
    let mut v = Viewport::new();
    v.jump_end(20, 5);
    assert_eq!(v.selection, 19);
    assert_eq!(v.scroll, 15);
    // Jumping again from the end changes nothing.
    v.jump_end(20, 5);
    assert_eq!(v.scroll, 15);
}

#[test]
fn jump_home_resets() {
    let mut v = Viewport::new();
    v.jump_end(20, 5);
    v.jump_home();
    assert_eq!(v.selection, 0);
    assert_eq!(v.scroll, 0);
}

#[test]
fn reclamp_after_list_shrank() {
    let mut v = Viewport { selection: 5, scroll: 1 };
    v.reclamp(3, 5);
    assert_eq!(v.selection, 2);
    assert_eq!(v.scroll, 0);
}

#[test]
fn reclamp_after_terminal_shrank() {
    // A shrunken window keeps the scroll and pulls the selection up
    // onto the last visible row.
    let mut v = Viewport { selection: 30, scroll: 25 };
    v.reclamp(100, 3);
    assert_eq!(v.scroll, 25);
    assert_eq!(v.selection, 27);
    assert!(v.scroll <= v.selection && v.selection < v.scroll + 3);
}
