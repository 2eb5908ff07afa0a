use nfm::buffer::EditBuffer;

fn type_text(b: &mut EditBuffer, text: &str) {
    for c in text.chars() {
        b.insert_char(c);
    }
}

fn content_string(b: &EditBuffer) -> String {
    b.content.iter().collect()
}

#[test]
fn insert_advances_cursor() {
    let mut b = EditBuffer::new();
    type_text(&mut b, "ab");
    assert_eq!(content_string(&b), "ab");
    assert_eq!(b.cursor, 2);
}

#[test]
fn backspace_at_left_edge_is_noop() {
    let mut b = EditBuffer::new();
    b.delete_before_cursor();
    assert_eq!(content_string(&b), "");
    assert_eq!(b.cursor, 0);
    type_text(&mut b, "x");
    b.move_left();
    b.delete_before_cursor();
    assert_eq!(content_string(&b), "x");
    assert_eq!(b.cursor, 0);
}

#[test]
fn cursor_clamps_at_both_ends() {
    let mut b = EditBuffer::new();
    b.move_left();
    assert_eq!(b.cursor, 0);
    b.move_right();
    assert_eq!(b.cursor, 0);
    type_text(&mut b, "hi");
    b.move_right();
    assert_eq!(b.cursor, 2);
    b.move_left();
    b.move_left();
    b.move_left();
    assert_eq!(b.cursor, 0);
}

#[test]
fn insert_in_the_middle() {
    let mut b = EditBuffer::new();
    type_text(&mut b, "ac");
    b.move_left();
    b.insert_char('b');
    assert_eq!(content_string(&b), "abc");
    assert_eq!(b.cursor, 2);
}

#[test]
fn rename_prompt_editing() {
    // The rename prompt opens on "old.txt" with the cursor at its
    // end; four backspaces strip ".txt", then "new" is typed.
    let mut b = EditBuffer::new();
    b.set_text("old.txt".chars().collect());
    assert_eq!(b.cursor, 7);
    for _ in 0..4 {
        b.delete_before_cursor();
    }
    assert_eq!(content_string(&b), "old");
    assert_eq!(b.cursor, 3);
    type_text(&mut b, "new");
    assert_eq!(content_string(&b), "oldnew");
    assert_eq!(b.cursor, 6);
}

#[test]
fn clear_resets_everything() {
    let mut b = EditBuffer::new();
    type_text(&mut b, "something");
    b.clear();
    assert_eq!(content_string(&b), "");
    assert_eq!(b.cursor, 0);
}

#[test]
fn cursor_stays_inside_content() {
    // A mixed run of edits never pushes the cursor outside the text.
    let mut b = EditBuffer::new();
    let script = "abcde";
    for c in script.chars() {
        b.insert_char(c);
        b.move_left();
        b.move_left();
        b.delete_before_cursor();
        b.move_right();
        assert!(b.cursor <= b.content.len());
    }
}
