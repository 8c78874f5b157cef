use modal_edit::Document;
use modal_edit::Editor;
use modal_edit::Mode;
use modal_edit::render::u16_decimal;

fn chars(s: &str) -> Vec<char> {
    s.chars().collect()
}

fn doc(lines: &[&str]) -> Document {
    Document { lines: lines.iter().map(|l| chars(l)).collect() }
}

#[test]
fn decimal_digits() {
    assert_eq!(u16_decimal(0), chars("0"));
    assert_eq!(u16_decimal(7), chars("7"));
    assert_eq!(u16_decimal(10), chars("10"));
    assert_eq!(u16_decimal(120), chars("120"));
    assert_eq!(u16_decimal(65535), chars("65535"));
}

#[test]
fn status_text_shows_mode_and_position() {
    let mut e = Editor::new(doc(&["abc"]), (80, 26));
    e.row = 3;
    e.column = 5;
    assert_eq!(e.status_text(), chars(" Normal 3:5 "));
    e.mode = Mode::Insert;
    assert_eq!(e.status_text(), chars(" Insert 3:5 "));
}

#[test]
fn row_text_pads_to_window_width() {
    let e = Editor::new(doc(&["ab"]), (5, 26));
    assert_eq!(e.visible_row_text(0), chars("ab   "));
}

#[test]
fn row_text_cuts_to_window_width() {
    let e = Editor::new(doc(&["abcdef"]), (4, 26));
    assert_eq!(e.visible_row_text(0), chars("abcd"));
}

#[test]
fn row_text_past_end_is_blank() {
    let e = Editor::new(doc(&["ab"]), (3, 26));
    assert_eq!(e.visible_row_text(1), chars("   "));
}

#[test]
fn row_text_follows_scroll_offset() {
    let mut e = Editor::new(doc(&["aa", "bb"]), (2, 26));
    e.terminal_top = 1;
    assert_eq!(e.visible_row_text(0), chars("bb"));
}
