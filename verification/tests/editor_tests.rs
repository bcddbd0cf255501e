use gmux::editor::EditBuffer;

fn buffer_with(text: &str, cursor: usize) -> EditBuffer {
    let mut b = EditBuffer::new();
    b.reset_with(text.chars().collect());
    b.cursor_to_start();
    for _ in 0..cursor {
        b.move_cursor_right();
    }
    b
}

fn text_of(b: &EditBuffer) -> String {
    b.text_chars().into_iter().collect()
}

fn kill_of(b: &EditBuffer) -> String {
    b.kill_chars().into_iter().collect()
}

#[test]
fn kill_to_end_then_yank_restores_line() {
    let mut b = buffer_with("hello world", 5);
    b.kill_to_end();
    assert_eq!(text_of(&b), "hello");
    assert_eq!(kill_of(&b), " world");
    assert_eq!(b.cursor_index(), 5);
    b.yank();
    assert_eq!(text_of(&b), "hello world");
    assert_eq!(b.cursor_index(), 11);
}

#[test]
fn cursor_stays_in_bounds_through_mixed_operations() {
    let mut b = EditBuffer::new();
    for ch in "abc def".chars() {
        b.insert_char(ch);
        assert!(b.cursor_index() <= b.buffer_len());
    }
    b.move_cursor_left();
    b.move_cursor_right();
    b.move_cursor_right();
    assert!(b.cursor_index() <= b.buffer_len());
    b.delete_prev_char();
    assert!(b.cursor_index() <= b.buffer_len());
    b.cursor_to_start();
    b.delete_prev_char();
    assert_eq!(b.cursor_index(), 0);
    b.cursor_to_end();
    b.delete_char();
    assert!(b.cursor_index() <= b.buffer_len());
    b.kill_to_start();
    assert_eq!(b.cursor_index(), 0);
    assert!(b.cursor_index() <= b.buffer_len());
}

#[test]
fn non_kill_deletes_leave_kill_slot_alone() {
    let mut b = buffer_with("one two", 3);
    b.kill_to_start();
    assert_eq!(kill_of(&b), "one");
    b.cursor_to_end();
    b.delete_prev_char();
    assert_eq!(kill_of(&b), "one");
    b.cursor_to_start();
    b.delete_char();
    assert_eq!(kill_of(&b), "one");
    b.insert_char('x');
    assert_eq!(kill_of(&b), "one");
}

#[test]
fn repeated_yank_inserts_the_same_text() {
    let mut b = buffer_with("abc", 3);
    b.kill_to_start();
    assert_eq!(kill_of(&b), "abc");
    b.yank();
    assert_eq!(text_of(&b), "abc");
    b.yank();
    assert_eq!(text_of(&b), "abcabc");
    assert_eq!(kill_of(&b), "abc");
    assert_eq!(b.cursor_index(), 6);
}

#[test]
fn each_kill_overwrites_the_slot() {
    let mut b = buffer_with("alpha beta", 10);
    b.kill_prev_word();
    assert_eq!(kill_of(&b), "beta");
    assert_eq!(text_of(&b), "alpha ");
    b.kill_to_start();
    assert_eq!(kill_of(&b), "alpha ");
    assert_eq!(text_of(&b), "");
}

#[test]
fn word_motions_stop_at_buffer_edges() {
    let b = buffer_with("foo bar", 0);
    assert_eq!(b.word_left_index(), 0);
    let b = buffer_with("foo bar", 7);
    assert_eq!(b.word_right_index(), 7);
    let b = buffer_with("", 0);
    assert_eq!(b.word_left_index(), 0);
    assert_eq!(b.word_right_index(), 0);
}

#[test]
fn word_left_then_right_returns_from_word_end() {
    // From the right edge of "foo" the round trip comes back to 3.
    let b = buffer_with("foo bar", 3);
    let left = b.word_left_index();
    assert_eq!(left, 0);
    let b2 = buffer_with("foo bar", left);
    assert_eq!(b2.word_right_index(), 3);
}

#[test]
fn word_motions_skip_whitespace_runs() {
    let b = buffer_with("foo   bar", 6);
    assert_eq!(b.word_left_index(), 0);
    let b = buffer_with("foo   bar", 3);
    assert_eq!(b.word_right_index(), 9);
}

#[test]
fn kill_word_forward_removes_following_word() {
    let mut b = buffer_with("one two three", 4);
    b.kill_word_forward();
    assert_eq!(text_of(&b), "one  three");
    assert_eq!(kill_of(&b), "two");
    assert_eq!(b.cursor_index(), 4);
}

#[test]
fn kill_range_is_a_no_op_on_empty_or_reversed_ranges() {
    let mut b = buffer_with("abcdef", 3);
    b.kill_range(4, 4);
    assert_eq!(text_of(&b), "abcdef");
    b.kill_range(5, 2);
    assert_eq!(text_of(&b), "abcdef");
    assert_eq!(kill_of(&b), "");
    b.kill_range(1, 4);
    assert_eq!(text_of(&b), "aef");
    assert_eq!(kill_of(&b), "bcd");
    assert_eq!(b.cursor_index(), 1);
}

#[test]
fn yank_on_empty_slot_changes_nothing() {
    let mut b = buffer_with("xyz", 1);
    b.yank();
    assert_eq!(text_of(&b), "xyz");
    assert_eq!(b.cursor_index(), 1);
}

#[test]
fn multibyte_characters_count_as_single_units() {
    let mut b = buffer_with("héllo", 5);
    assert_eq!(b.buffer_len(), 5);
    b.delete_prev_char();
    assert_eq!(text_of(&b), "héll");
    b.cursor_to_start();
    b.move_cursor_right();
    b.delete_char();
    assert_eq!(text_of(&b), "hll");
}
