use nix_inspect::input::InputModel;
use nix_inspect::input::KeyCode;
use nix_inspect::input::KeyEvent;
use nix_inspect::text::string_of_chars;

#[test]
fn insert_places_characters_at_the_cursor() {
    let mut b = InputModel::new(true, Vec::new());
    b.insert('a');
    b.insert('c');
    b.move_cursor_left();
    b.insert('b');
    assert_eq!(string_of_chars(&b.input), "abc");
    assert_eq!(b.cursor_position, 2);
}

#[test]
fn backspace_removes_before_the_cursor() {
    let mut b = InputModel::new(true, vec!['a', 'b', 'c']);
    b.backspace();
    assert_eq!(string_of_chars(&b.input), "ab");
    assert_eq!(b.cursor_position, 2);
    b.move_cursor_left();
    b.move_cursor_left();
    b.backspace();
    assert_eq!(string_of_chars(&b.input), "ab");
    assert_eq!(b.cursor_position, 0);
}

#[test]
fn cursor_moves_clamp_at_both_ends() {
    let mut b = InputModel::new(true, vec!['h', 'i']);
    b.move_cursor_right();
    assert_eq!(b.cursor_position, 2);
    b.move_cursor_left();
    b.move_cursor_left();
    b.move_cursor_left();
    assert_eq!(b.cursor_position, 0);
    assert_eq!(b.clamp_cursor(7), 2);
    assert_eq!(b.clamp_cursor(1), 1);
}

#[test]
fn key_events_edit_the_buffer() {
    let mut b = InputModel::new(true, Vec::new());
    b.handle_key_event(KeyEvent::plain(KeyCode::Char('x')));
    b.handle_key_event(KeyEvent::plain(KeyCode::Char('y')));
    b.handle_key_event(KeyEvent::plain(KeyCode::Left));
    b.handle_key_event(KeyEvent::plain(KeyCode::Backspace));
    assert_eq!(string_of_chars(&b.input), "y");
    // Unhandled keys leave the buffer alone.
    b.handle_key_event(KeyEvent::plain(KeyCode::Esc));
    b.handle_key_event(KeyEvent::plain(KeyCode::Other));
    assert_eq!(string_of_chars(&b.input), "y");
    assert!(b.typing);
}
