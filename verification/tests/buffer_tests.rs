use modal_edit::Buffer;

fn chars(s: &str) -> Vec<char> {
    s.chars().collect()
}

#[test]
fn new_buffer_is_empty() {
    let b = Buffer::new();
    assert_eq!(b.get_content().len(), 0);
    assert_eq!(b.get_cursor_position(), 0);
}

#[test]
fn insert_appends_at_cursor() {
    let mut b = Buffer::new();
    b.insert('h');
    b.insert('i');
    assert_eq!(*b.get_content(), chars("hi"));
    assert_eq!(b.get_cursor_position(), 2);
}

#[test]
fn insert_in_middle() {
    let mut b = Buffer::new();
    b.insert('a');
    b.insert('c');
    b.move_cursor_left();
    b.insert('b');
    assert_eq!(*b.get_content(), chars("abc"));
    assert_eq!(b.get_cursor_position(), 2);
}

#[test]
fn delete_removes_left_of_cursor() {
    let mut b = Buffer::new();
    b.insert('a');
    b.insert('b');
    b.insert('c');
    b.delete();
    assert_eq!(*b.get_content(), chars("ab"));
    assert_eq!(b.get_cursor_position(), 2);
}

#[test]
fn delete_at_start_is_noop() {
    let mut b = Buffer::new();
    b.insert('a');
    b.move_cursor_left();
    b.delete();
    assert_eq!(*b.get_content(), chars("a"));
    assert_eq!(b.get_cursor_position(), 0);
}

#[test]
fn cursor_stops_at_both_ends() {
    let mut b = Buffer::new();
    b.move_cursor_left();
    assert_eq!(b.get_cursor_position(), 0);
    b.insert('x');
    b.move_cursor_right();
    assert_eq!(b.get_cursor_position(), 1);
    b.move_cursor_left();
    b.move_cursor_left();
    assert_eq!(b.get_cursor_position(), 0);
    b.move_cursor_right();
    assert_eq!(b.get_cursor_position(), 1);
}
