use std::path::PathBuf;
use velo::mode::MajorMode;
use velo::{Buffer, Position, VeloError};

#[test]
fn test_buffer_new() {
    let buffer = Buffer::new();
    assert_eq!(buffer.text(), "");
    assert_eq!(buffer.file_path, None);
    assert!(!buffer.is_dirty);
    assert_eq!(buffer.cursor, Position::new(0, 0));
    assert!(buffer.selections.is_empty());
    assert!(buffer.minor_modes.is_empty());
    assert!(buffer.syntax_tree.is_none());
}

#[test]
fn test_buffer_default() {
    let buffer = Buffer::default();
    assert_eq!(buffer.text(), "");
    assert!(!buffer.is_dirty);
}

#[test]
fn test_buffer_from_text() {
    let buffer = Buffer::from_text("Hello, world!");
    assert_eq!(buffer.text(), "Hello, world!");
    assert_eq!(buffer.file_path, None);
    assert!(!buffer.is_dirty);
}

#[test]
fn test_buffer_from_file() {
    let path = PathBuf::from("test.txt");
    let buffer = Buffer::from_file(path.clone(), "File content");
    assert_eq!(buffer.text(), "File content");
    assert_eq!(buffer.file_path, Some(path));
    assert!(!buffer.is_dirty);
}

#[test]
fn test_insert_sets_dirty() {
    let mut buffer = Buffer::from_text("Hello");
    assert!(!buffer.is_dirty);

    buffer.insert(Position::new(0, 5), " world").unwrap();
    assert!(buffer.is_dirty);
    assert_eq!(buffer.text(), "Hello world");
}

#[test]
fn test_delete_sets_dirty() {
    let mut buffer = Buffer::from_text("Hello world");
    assert!(!buffer.is_dirty);

    buffer
        .delete(Position::new(0, 5), Position::new(0, 11))
        .unwrap();
    assert!(buffer.is_dirty);
    assert_eq!(buffer.text(), "Hello");
}

#[test]
fn test_insert_char_sets_dirty() {
    let mut buffer = Buffer::from_text("Hello");
    buffer.cursor = Position::new(0, 5);
    assert!(!buffer.is_dirty);

    buffer.insert_char('!').unwrap();
    assert!(buffer.is_dirty);
    assert_eq!(buffer.text(), "Hello!");
}

#[test]
fn test_delete_char_sets_dirty() {
    let mut buffer = Buffer::from_text("Hello!");
    buffer.cursor = Position::new(0, 5);
    assert!(!buffer.is_dirty);

    buffer.delete_char().unwrap();
    assert!(buffer.is_dirty);
    assert_eq!(buffer.text(), "Hello");
}

#[test]
fn test_replace_sets_dirty() {
    let mut buffer = Buffer::from_text("Hello world");
    assert!(!buffer.is_dirty);

    buffer
        .replace(Position::new(0, 0), Position::new(0, 5), "Hi")
        .unwrap();
    assert!(buffer.is_dirty);
    assert_eq!(buffer.text(), "Hi world");
}

#[test]
fn test_save_without_file_path_fails() {
    let mut buffer = Buffer::from_text("No path");
    buffer.is_dirty = true;

    let result = buffer.contents_to_save();
    assert!(result.is_err());
    assert!(matches!(result.unwrap_err(), VeloError::NoFilePath));
}

#[test]
fn test_line_count() {
    let buffer = Buffer::from_text("Line 1\nLine 2\nLine 3");
    assert_eq!(buffer.line_count(), 3);
}

#[test]
fn test_line() {
    let buffer = Buffer::from_text("Line 1\nLine 2\nLine 3");
    assert_eq!(buffer.line(0), Some("Line 1\n".to_string()));
    assert_eq!(buffer.line(1), Some("Line 2\n".to_string()));
    assert_eq!(buffer.line(2), Some("Line 3".to_string()));
    assert_eq!(buffer.line(3), None);
}

#[test]
fn test_delete_invalid_range() {
    let mut buffer = Buffer::from_text("Hello");
    let result = buffer.delete(Position::new(0, 5), Position::new(0, 0));
    assert!(result.is_err());
    assert!(matches!(result.unwrap_err(), VeloError::InvalidRange));
}

#[test]
fn test_insert_invalid_position() {
    let mut buffer = Buffer::from_text("Hello");
    let result = buffer.insert(Position::new(10, 0), "text");
    assert!(result.is_err());
    assert!(matches!(result.unwrap_err(), VeloError::InvalidPosition));
}

#[test]
fn buffer_test_delete_char_at_end_fails() {
    let mut buffer = Buffer::from_text("Hi");
    buffer.cursor = Position::new(0, 2);
    let result = buffer.delete_char();
    assert!(result.is_err());
    assert!(matches!(result.unwrap_err(), VeloError::InvalidPosition));
}

#[test]
fn test_multiline_insert() {
    let mut buffer = Buffer::from_text("Line 1\nLine 3");
    buffer.insert(Position::new(1, 0), "Line 2\n").unwrap();
    assert_eq!(buffer.text(), "Line 1\nLine 2\nLine 3");
    assert!(buffer.is_dirty);
}

#[test]
fn test_multiline_delete() {
    let mut buffer = Buffer::from_text("Line 1\nLine 2\nLine 3");
    buffer
        .delete(Position::new(1, 0), Position::new(2, 0))
        .unwrap();
    assert_eq!(buffer.text(), "Line 1\nLine 3");
    assert!(buffer.is_dirty);
}

#[test]
fn test_buffer_has_major_mode() {
    let buffer = Buffer::new();
    assert_eq!(buffer.major_mode.name(), "plain-text");
}

#[test]
fn test_buffer_has_empty_minor_modes() {
    let buffer = Buffer::new();
    assert!(buffer.minor_modes.is_empty());
}

#[test]
fn test_buffer_has_no_syntax_tree_initially() {
    let buffer = Buffer::new();
    assert!(buffer.syntax_tree.is_none());
}

#[test]
fn test_buffer_has_rope() {
    let buffer = Buffer::from_text("Test");
    assert_eq!(buffer.rope.to_string(), "Test");
}

#[test]
fn test_buffer_has_selections() {
    let buffer = Buffer::new();
    assert!(buffer.selections.is_empty());
}
