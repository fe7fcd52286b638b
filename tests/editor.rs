use spine::document::Document;
use spine::editor::{cursor_after, Action, Editor};
use spine::key::Key;
use spine::position::{Position, Size};
use spine::row::Row;
use spine::status::shown_after;
use spine::text::{decimal_chars, is_control_char};

fn chars(s: &str) -> Vec<char> {
    s.chars().collect()
}

fn text(v: &[char]) -> String {
    v.iter().collect()
}

fn doc(lines: &[&str]) -> Document {
    let mut t = String::new();
    for line in lines {
        t.push_str(line);
        t.push('\n');
    }
    Document::from_text(None, &chars(&t))
}

fn rows_of(d: &Document) -> Vec<String> {
    let mut out = Vec::new();
    for i in 0..d.len() {
        let row = d.row(i).unwrap();
        out.push(text(&row.render(0, row.len())));
    }
    out
}

fn editor(lines: &[&str]) -> Editor {
    Editor::new(doc(lines), Size { width: 80, height: 24 }, chars("hello"))
}

fn pos(x: usize, y: usize) -> Position {
    Position { x, y }
}

#[test]
fn empty_document_shows_welcome_and_status() {
    let e = Editor::new(Document::default(), Size { width: 80, height: 24 }, Vec::new());
    let frame = e.draw(true);
    assert_eq!(frame.rows.len(), 24);
    let banner = text(&frame.rows[8]);
    assert!(banner.starts_with("~ "));
    assert!(banner.contains("Spine"));
    assert!(banner.contains("0.1.0"));
    let message = "Spine - Simple, Lightweight, Fast... version 0.1.0";
    let pad = (80 - message.len()) / 2 - 1;
    assert_eq!(banner, format!("~{}{}", " ".repeat(pad), message));
    assert_eq!(text(&frame.rows[0]), "~");
    assert_eq!(text(&frame.rows[9]), "~");
    let status = text(&frame.status_bar);
    assert_eq!(status.chars().count(), 80);
    assert!(status.starts_with("[No Name] - 0 lines"));
    assert!(status.ends_with("1/1"));
    assert_eq!(frame.cursor, pos(0, 0));
}

#[test]
fn typing_appends_at_end_of_row() {
    let mut e = editor(&["abc"]);
    e.process_keypress(Key::End);
    assert_eq!(e.cursor_position(), pos(3, 0));
    assert_eq!(e.process_keypress(Key::Char('d')), Action::Continue);
    assert_eq!(rows_of(e.document()), vec!["abcd"]);
    assert_eq!(e.cursor_position(), pos(4, 0));
}

#[test]
fn backspace_at_line_start_merges_rows() {
    let mut e = editor(&["ab", "cd"]);
    e.process_keypress(Key::Down);
    assert_eq!(e.cursor_position(), pos(0, 1));
    e.process_keypress(Key::Backspace);
    assert_eq!(rows_of(e.document()), vec!["abcd"]);
    assert_eq!(e.cursor_position(), pos(2, 0));
}

#[test]
fn down_is_clamped_to_document_length() {
    let d = doc(&["1", "2", "3", "4", "5"]);
    assert_eq!(cursor_after(&d, pos(0, 10), 24, Key::Down), pos(0, 5));
    assert_eq!(cursor_after(&d, pos(0, 4), 24, Key::Down), pos(0, 5));
    assert_eq!(cursor_after(&d, pos(0, 5), 24, Key::Down), pos(0, 5));
}

#[test]
fn home_then_left_on_first_row() {
    let d = doc(&["hello", "world"]);
    let home = cursor_after(&d, pos(3, 0), 24, Key::Home);
    assert_eq!(home, pos(0, 0));
    assert_eq!(cursor_after(&d, home, 24, Key::Left), home);
}

#[test]
fn left_at_origin_stays() {
    let d = doc(&["hello"]);
    assert_eq!(cursor_after(&d, pos(0, 0), 24, Key::Left), pos(0, 0));
    let mut e = editor(&["hello"]);
    e.process_keypress(Key::Left);
    assert_eq!(e.cursor_position(), pos(0, 0));
}

#[test]
fn right_at_end_of_last_line_stays() {
    let d = doc(&["ab"]);
    assert_eq!(cursor_after(&d, pos(0, 1), 24, Key::Right), pos(0, 1));
    assert_eq!(cursor_after(&d, pos(2, 0), 24, Key::Right), pos(0, 1));
}

#[test]
fn left_at_line_start_goes_to_end_of_previous_row() {
    let d = doc(&["abc", "de"]);
    assert_eq!(cursor_after(&d, pos(0, 1), 24, Key::Left), pos(3, 0));
    assert_eq!(cursor_after(&d, pos(1, 1), 24, Key::Left), pos(0, 1));
}

#[test]
fn vertical_moves_clamp_column() {
    let d = doc(&["abcdef", "ab"]);
    assert_eq!(cursor_after(&d, pos(5, 0), 24, Key::Down), pos(2, 1));
    assert_eq!(cursor_after(&d, pos(2, 1), 24, Key::Up), pos(2, 0));
    assert_eq!(cursor_after(&d, pos(1, 0), 24, Key::End), pos(6, 0));
    assert_eq!(cursor_after(&d, pos(0, 0), 24, Key::Up), pos(0, 0));
}

#[test]
fn page_moves() {
    let lines: Vec<String> = (0..50).map(|i| format!("{}", i)).collect();
    let refs: Vec<&str> = lines.iter().map(|s| s.as_str()).collect();
    let d = doc(&refs);
    assert_eq!(cursor_after(&d, pos(0, 0), 10, Key::PageDown), pos(0, 10));
    assert_eq!(cursor_after(&d, pos(0, 45), 10, Key::PageDown), pos(0, 50));
    assert_eq!(cursor_after(&d, pos(0, 25), 10, Key::PageUp), pos(0, 15));
    assert_eq!(cursor_after(&d, pos(0, 5), 10, Key::PageUp), pos(0, 0));
}

#[test]
fn enter_splits_row() {
    let mut e = editor(&["abcd"]);
    e.process_keypress(Key::Right);
    e.process_keypress(Key::Right);
    e.process_keypress(Key::Char('\n'));
    assert_eq!(rows_of(e.document()), vec!["ab", "cd"]);
    assert_eq!(e.cursor_position(), pos(0, 1));
}

#[test]
fn delete_removes_under_cursor_and_merges_at_end() {
    let mut e = editor(&["abc", "de"]);
    e.process_keypress(Key::Delete);
    assert_eq!(rows_of(e.document()), vec!["bc", "de"]);
    e.process_keypress(Key::End);
    e.process_keypress(Key::Delete);
    assert_eq!(rows_of(e.document()), vec!["bcde"]);
    assert_eq!(e.cursor_position(), pos(2, 0));
}

#[test]
fn typing_on_empty_document_starts_a_row() {
    let mut e = Editor::new(Document::default(), Size { width: 80, height: 24 }, Vec::new());
    e.process_keypress(Key::Char('x'));
    assert_eq!(rows_of(e.document()), vec!["x"]);
    assert_eq!(e.cursor_position(), pos(1, 0));
}

#[test]
fn backspace_at_origin_does_nothing() {
    let mut e = editor(&["ab"]);
    e.process_keypress(Key::Backspace);
    assert_eq!(rows_of(e.document()), vec!["ab"]);
    assert_eq!(e.cursor_position(), pos(0, 0));
}

#[test]
fn scrolling_follows_cursor() {
    let lines: Vec<String> = (0..30).map(|i| format!("line {}", i)).collect();
    let refs: Vec<&str> = lines.iter().map(|s| s.as_str()).collect();
    let mut e = Editor::new(doc(&refs), Size { width: 4, height: 5 }, Vec::new());
    for _ in 0..7 {
        e.process_keypress(Key::Down);
    }
    assert_eq!(e.cursor_position(), pos(0, 7));
    assert_eq!(e.offset(), pos(0, 3));
    e.process_keypress(Key::End);
    assert_eq!(e.cursor_position(), pos(6, 7));
    assert_eq!(e.offset(), pos(3, 3));
    let frame = e.draw(true);
    assert_eq!(text(&frame.rows[0]), "e 3");
    assert_eq!(frame.cursor, pos(3, 4));
    e.process_keypress(Key::Home);
    assert_eq!(e.offset(), pos(0, 3));
    for _ in 0..5 {
        e.process_keypress(Key::Up);
    }
    assert_eq!(e.offset(), pos(0, 2));
}

#[test]
fn save_prompts_for_a_name() {
    let mut e = editor(&["x"]);
    assert_eq!(e.run(Key::Ctrl('s')), Action::Continue);
    assert_eq!(text(e.status_text()), "Save as: ");
    e.run(Key::Char('a'));
    e.run(Key::Up);
    e.run(Key::Char('\u{7}'));
    e.run(Key::Char('b'));
    assert_eq!(text(e.status_text()), "Save as: ab");
    assert_eq!(e.run(Key::Char('\n')), Action::Save);
    assert_eq!(e.document().file_name().clone(), Some(chars("ab")));
    assert_eq!(text(e.status_text()), "");
    e.finish_save(true);
    assert_eq!(text(e.status_text()), "File saved successfully.");
    assert_eq!(e.run(Key::Ctrl('s')), Action::Save);
    e.finish_save(false);
    assert_eq!(text(e.status_text()), "Error writing file!");
    assert_eq!(rows_of(e.document()), vec!["x"]);
}

#[test]
fn quit_ends_the_loop() {
    let mut e = editor(&["x"]);
    assert!(e.refresh_screen().is_some());
    assert_eq!(e.run(Key::Ctrl('q')), Action::Quit);
    assert!(e.should_quit());
    assert_eq!(e.run(Key::Char('y')), Action::Quit);
    assert_eq!(rows_of(e.document()), vec!["x"]);
    assert!(e.refresh_screen().is_none());
}

#[test]
fn other_keys_do_nothing() {
    let mut e = editor(&["x"]);
    assert_eq!(e.run(Key::Esc), Action::Continue);
    assert_eq!(e.run(Key::F(3)), Action::Continue);
    assert_eq!(e.run(Key::Ctrl('z')), Action::Continue);
    assert_eq!(rows_of(e.document()), vec!["x"]);
    assert_eq!(e.cursor_position(), pos(0, 0));
}

#[test]
fn status_bar_with_name() {
    let d = Document::from_text(Some(chars("a_rather_long_file_name.txt")), &chars("a\nb\n"));
    let mut e = Editor::new(d, Size { width: 50, height: 10 }, Vec::new());
    e.process_keypress(Key::Down);
    e.process_keypress(Key::Right);
    let status = text(&e.draw_status_bar());
    assert_eq!(status.chars().count(), 50);
    assert!(status.starts_with("a_rather_long_file_n - 2 lines "));
    assert!(status.ends_with(" 2/2"));
    let narrow = Editor::new(doc(&["a"]), Size { width: 5, height: 10 }, Vec::new());
    assert_eq!(text(&narrow.draw_status_bar()), "[No N");
}

#[test]
fn message_bar_shows_fresh_message() {
    let e = Editor::new(doc(&["a"]), Size { width: 3, height: 10 }, chars("hello"));
    assert_eq!(text(&e.draw_message_bar(true)), "hel");
    assert_eq!(text(&e.draw_message_bar(false)), "");
    let frame = e.refresh_screen().unwrap();
    assert_eq!(text(&frame.message_bar), "hel");
    assert!(shown_after(4));
    assert!(!shown_after(5));
}

#[test]
fn document_round_trip() {
    let original = chars("first\n\nthird line\nlast");
    let d = Document::from_text(Some(chars("f.txt")), &original);
    assert_eq!(rows_of(&d), vec!["first", "", "third line", "last"]);
    let stored = d.to_text();
    assert_eq!(text(&stored), "first\n\nthird line\nlast\n");
    let again = Document::from_text(Some(chars("f.txt")), &stored);
    assert_eq!(rows_of(&again), rows_of(&d));
    assert!(Document::from_text(None, &Vec::new()).is_empty());
    assert_eq!(rows_of(&Document::from_text(None, &chars("\n"))), vec![""]);
}

#[test]
fn row_primitives() {
    let mut r = Row::from_chars(chars("hello"));
    assert_eq!(text(&r.render(1, 3)), "el");
    assert_eq!(text(&r.render(4, 100)), "o");
    assert_eq!(text(&r.render(9, 100)), "");
    r.insert(0, '>');
    r.insert(99, '<');
    assert_eq!(text(&r.render(0, 100)), ">hello<");
    r.delete(1);
    r.delete(50);
    assert_eq!(text(&r.render(0, 100)), ">ello<");
    let rest = r.split(3);
    assert_eq!(text(&r.render(0, 100)), ">el");
    assert_eq!(text(&rest.render(0, 100)), "lo<");
    r.append(&rest);
    assert_eq!(r.len(), 6);
    assert!(Row::new().is_empty());
}

#[test]
fn numerals_and_control_chars() {
    assert_eq!(text(&decimal_chars(0)), "0");
    assert_eq!(text(&decimal_chars(1907)), "1907");
    assert_eq!(text(&decimal_chars(usize::MAX)), usize::MAX.to_string());
    assert!(is_control_char('\n'));
    assert!(is_control_char('\u{7f}'));
    assert!(is_control_char('\u{9f}'));
    assert!(!is_control_char('a'));
    assert!(!is_control_char('\u{a0}'));
}
