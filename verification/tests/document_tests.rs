use modal_edit::Document;
use modal_edit::EditError;

fn chars(s: &str) -> Vec<char> {
    s.chars().collect()
}

fn doc(lines: &[&str]) -> Document {
    Document { lines: lines.iter().map(|l| chars(l)).collect() }
}

#[test]
fn from_text_splits_on_newlines() {
    let d = Document::from_text(&chars("abc\nde\n\nf"));
    assert_eq!(d.line_count(), 4);
    assert_eq!(*d.get_line(0).unwrap(), chars("abc"));
    assert_eq!(*d.get_line(1).unwrap(), chars("de"));
    assert_eq!(*d.get_line(2).unwrap(), chars(""));
    assert_eq!(*d.get_line(3).unwrap(), chars("f"));
}

#[test]
fn from_text_trailing_newline_ends_last_line() {
    let d = Document::from_text(&chars("abc\n"));
    assert_eq!(d.line_count(), 1);
    assert_eq!(*d.get_line(0).unwrap(), chars("abc"));
}

#[test]
fn from_text_empty_gives_no_lines() {
    let d = Document::from_text(&chars(""));
    assert_eq!(d.line_count(), 0);
}

#[test]
fn get_line_past_end_is_absent() {
    // An existing empty line and an index past the end stay distinguishable.
    let d = doc(&["", "x"]);
    assert!(d.get_line(0).is_some());
    assert!(d.get_line(0).unwrap().is_empty());
    assert!(d.get_line(2).is_none());
    assert!(d.get_line(usize::MAX).is_none());
    assert_eq!(d.line_len(2), 0);
}

#[test]
fn insert_char_in_line() {
    let mut d = doc(&["ac"]);
    assert_eq!(d.insert_char(0, 1, 'b'), Ok(()));
    assert_eq!(*d.get_line(0).unwrap(), chars("abc"));
}

#[test]
fn insert_char_at_line_end() {
    let mut d = doc(&["ab"]);
    assert_eq!(d.insert_char(0, 2, 'c'), Ok(()));
    assert_eq!(*d.get_line(0).unwrap(), chars("abc"));
}

#[test]
fn insert_char_out_of_bounds_is_rejected() {
    let mut d = doc(&["ab"]);
    assert_eq!(d.insert_char(1, 0, 'x'), Err(EditError::OutOfBounds));
    assert_eq!(d.insert_char(0, 3, 'x'), Err(EditError::OutOfBounds));
    assert_eq!(*d.get_line(0).unwrap(), chars("ab"));
    assert_eq!(d.line_count(), 1);
}

#[test]
fn delete_char_removes_one() {
    let mut d = doc(&["abc"]);
    assert_eq!(d.delete_char(0, 1), Ok(()));
    assert_eq!(*d.get_line(0).unwrap(), chars("ac"));
}

#[test]
fn delete_char_out_of_bounds_is_rejected() {
    let mut d = doc(&["abc"]);
    assert_eq!(d.delete_char(0, 3), Err(EditError::OutOfBounds));
    assert_eq!(d.delete_char(1, 0), Err(EditError::OutOfBounds));
    assert_eq!(*d.get_line(0).unwrap(), chars("abc"));
}

#[test]
fn split_line_at_cursor() {
    let mut d = doc(&["abcd", "z"]);
    assert_eq!(d.split_line(0, 2), Ok(()));
    assert_eq!(d.line_count(), 3);
    assert_eq!(*d.get_line(0).unwrap(), chars("ab"));
    assert_eq!(*d.get_line(1).unwrap(), chars("cd"));
    assert_eq!(*d.get_line(2).unwrap(), chars("z"));
}

#[test]
fn split_line_at_end_adds_empty_line() {
    let mut d = doc(&["ab"]);
    assert_eq!(d.split_line(0, 2), Ok(()));
    assert_eq!(d.line_count(), 2);
    assert_eq!(*d.get_line(0).unwrap(), chars("ab"));
    assert_eq!(*d.get_line(1).unwrap(), chars(""));
}

#[test]
fn split_line_out_of_bounds_is_rejected() {
    let mut d = doc(&["ab"]);
    assert_eq!(d.split_line(0, 3), Err(EditError::OutOfBounds));
    assert_eq!(d.split_line(1, 0), Err(EditError::OutOfBounds));
    assert_eq!(d.line_count(), 1);
}
