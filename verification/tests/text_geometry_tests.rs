use autoclicker::geometry::{Point, Rect};
use autoclicker::text::{chars_of, contains, same_text, text_from_utf16_prefix};

#[test]
fn contains_finds_inner_runs() {
    assert!(contains("Untitled - Notepad", "Notepad"));
    assert!(contains("Untitled - Notepad", "Untitled"));
    assert!(contains("Untitled - Notepad", "d - N"));
    assert!(contains("abc", ""));
    assert!(contains("", ""));
    assert!(contains("abc", "abc"));
}

#[test]
fn contains_rejects_missing_runs() {
    assert!(!contains("Notepad", "notepad"));
    assert!(!contains("Note", "Notepad"));
    assert!(!contains("", "a"));
    assert!(!contains("abcabd", "abcd"));
}

#[test]
fn contains_counts_characters_not_bytes() {
    assert!(contains("Café – Menü", "é – M"));
    assert!(!contains("Café", "e"));
}

#[test]
fn same_text_compares_characters() {
    assert!(same_text("Program Manager", "Program Manager"));
    assert!(!same_text("Program Manager", "Program manager"));
    assert!(!same_text("ab", "abc"));
    assert!(same_text("", ""));
}

#[test]
fn chars_of_keeps_order() {
    assert_eq!(chars_of("aé€"), vec!['a', 'é', '€']);
}

#[test]
fn utf16_prefix_decodes_only_the_reported_units() {
    let buf: Vec<u16> = "Calculator".encode_utf16().chain(std::iter::repeat(0u16).take(6)).collect();
    assert_eq!(text_from_utf16_prefix(&buf, 4), Some("Calc".to_string()));
    assert_eq!(text_from_utf16_prefix(&buf, 10), Some("Calculator".to_string()));
    assert_eq!(text_from_utf16_prefix(&buf, 0), None);
    assert_eq!(text_from_utf16_prefix(&buf, -3), None);
}

#[test]
fn utf16_prefix_replaces_unpaired_surrogates() {
    let buf: Vec<u16> = vec![0x0041, 0xD800, 0x0042];
    assert_eq!(text_from_utf16_prefix(&buf, 3), Some("A\u{FFFD}B".to_string()));
}

#[test]
fn geometry_gives_right_and_bottom_edges() {
    let r = Rect::from_geometry(-10, 20, 300, 200);
    assert_eq!(r, Rect { left: -10, top: 20, right: 290, bottom: 220 });
    let r = Rect::from_geometry(i16::MAX, i16::MIN, u16::MAX, u16::MAX);
    assert_eq!(r.right, i16::MAX as i32 + u16::MAX as i32);
    assert_eq!(r.bottom, i16::MIN as i32 + u16::MAX as i32);
}

#[test]
fn rect_holds_its_edges() {
    let r = Rect { left: 0, top: 0, right: 100, bottom: 50 };
    assert!(r.contains(Point { x: 0, y: 0 }));
    assert!(r.contains(Point { x: 100, y: 50 }));
    assert!(r.contains(Point { x: 40, y: 25 }));
    assert!(!r.contains(Point { x: 101, y: 25 }));
    assert!(!r.contains(Point { x: 40, y: -1 }));
    assert!(!r.contains(Point { x: -1, y: 51 }));
}

#[test]
fn utf16_prefix_joins_surrogate_pairs() {
    let buf: Vec<u16> = "a\u{1F600}b".encode_utf16().collect();
    assert_eq!(buf.len(), 4);
    assert_eq!(text_from_utf16_prefix(&buf, 4), Some("a\u{1F600}b".to_string()));
    assert_eq!(text_from_utf16_prefix(&buf, 2), Some("a\u{FFFD}".to_string()));
    let lone_low: Vec<u16> = vec![0xDC00, 0x0043];
    assert_eq!(text_from_utf16_prefix(&lone_low, 2), Some("\u{FFFD}C".to_string()));
}
