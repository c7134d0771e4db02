use std::path::PathBuf;
use velo::command::Command;
use velo::{Buffer, DeleteChar, EditorState, InsertChar, MoveCursor, OpenFile, Position, SaveFile, VeloError};

#[test]
fn test_insert_char_execute() {
    let mut state = EditorState::new();
    let buffer = Buffer::from_text("Hello");
    state.open_buffer(buffer);

    // Set cursor to end of text
    state.active_buffer_mut().unwrap().cursor = Position::new(0, 5);

    let mut cmd = InsertChar::new('!');
    cmd.execute(&mut state).unwrap();

    let buffer = state.active_buffer().unwrap();
    assert_eq!(buffer.text(), "Hello!");
    assert_eq!(buffer.cursor, Position::new(0, 6));
    assert!(buffer.is_dirty);
}

#[test]
fn test_insert_char_undo() {
    let mut state = EditorState::new();
    let buffer = Buffer::from_text("Hello");
    state.open_buffer(buffer);

    state.active_buffer_mut().unwrap().cursor = Position::new(0, 5);

    let mut cmd = InsertChar::new('!');
    cmd.execute(&mut state).unwrap();
    cmd.undo(&mut state).unwrap();

    let buffer = state.active_buffer().unwrap();
    assert_eq!(buffer.text(), "Hello");
    assert_eq!(buffer.cursor, Position::new(0, 5));
}

#[test]
fn test_insert_char_middle_of_text() {
    let mut state = EditorState::new();
    let buffer = Buffer::from_text("Helo");
    state.open_buffer(buffer);

    state.active_buffer_mut().unwrap().cursor = Position::new(0, 2);

    let mut cmd = InsertChar::new('l');
    cmd.execute(&mut state).unwrap();

    let buffer = state.active_buffer().unwrap();
    assert_eq!(buffer.text(), "Hello");
    assert_eq!(buffer.cursor, Position::new(0, 3));
}

#[test]
fn test_delete_char_execute() {
    let mut state = EditorState::new();
    let buffer = Buffer::from_text("Hello!");
    state.open_buffer(buffer);

    state.active_buffer_mut().unwrap().cursor = Position::new(0, 5);

    let mut cmd = DeleteChar::new();
    cmd.execute(&mut state).unwrap();

    let buffer = state.active_buffer().unwrap();
    assert_eq!(buffer.text(), "Hello");
    assert!(buffer.is_dirty);
}

#[test]
fn test_delete_char_undo() {
    let mut state = EditorState::new();
    let buffer = Buffer::from_text("Hello!");
    state.open_buffer(buffer);

    state.active_buffer_mut().unwrap().cursor = Position::new(0, 5);

    let mut cmd = DeleteChar::new();
    cmd.execute(&mut state).unwrap();
    cmd.undo(&mut state).unwrap();

    let buffer = state.active_buffer().unwrap();
    assert_eq!(buffer.text(), "Hello!");
    assert_eq!(buffer.cursor, Position::new(0, 5));
}

#[test]
fn command_test_delete_char_at_end_fails() {
    let mut state = EditorState::new();
    let buffer = Buffer::from_text("Hi");
    state.open_buffer(buffer);

    state.active_buffer_mut().unwrap().cursor = Position::new(0, 2);

    let mut cmd = DeleteChar::new();
    let result = cmd.execute(&mut state);

    assert!(result.is_err());
    assert!(matches!(result.unwrap_err(), VeloError::InvalidPosition));
}

#[test]
fn test_move_cursor_execute() {
    let mut state = EditorState::new();
    let buffer = Buffer::from_text("Hello\nWorld");
    state.open_buffer(buffer);

    let mut cmd = MoveCursor::new(Position::new(1, 3));
    cmd.execute(&mut state).unwrap();

    let buffer = state.active_buffer().unwrap();
    assert_eq!(buffer.cursor, Position::new(1, 3));
}

#[test]
fn test_move_cursor_undo() {
    let mut state = EditorState::new();
    let buffer = Buffer::from_text("Hello\nWorld");
    state.open_buffer(buffer);

    let original_pos = Position::new(0, 0);
    state.active_buffer_mut().unwrap().cursor = original_pos;

    let mut cmd = MoveCursor::new(Position::new(1, 3));
    cmd.execute(&mut state).unwrap();
    cmd.undo(&mut state).unwrap();

    let buffer = state.active_buffer().unwrap();
    assert_eq!(buffer.cursor, original_pos);
}

#[test]
fn test_move_cursor_invalid_position() {
    let mut state = EditorState::new();
    let buffer = Buffer::from_text("Hello");
    state.open_buffer(buffer);

    let mut cmd = MoveCursor::new(Position::new(10, 0));
    let result = cmd.execute(&mut state);

    assert!(result.is_err());
    assert!(matches!(result.unwrap_err(), VeloError::InvalidPosition));
}

#[test]
fn test_save_file_undo_not_supported() {
    let mut state = EditorState::new();
    let buffer = Buffer::from_text("Test");
    state.open_buffer(buffer);

    let cmd = SaveFile::new();
    let result = cmd.undo(&mut state);

    assert!(result.is_err());
    assert!(matches!(result.unwrap_err(), VeloError::UndoNotSupported));
}

#[test]
fn test_save_file_no_path_fails() {
    let mut state = EditorState::new();
    let buffer = Buffer::from_text("Test");
    state.open_buffer(buffer);

    let cmd = SaveFile::new();
    let result = cmd.execute(&mut state);

    assert!(result.is_err());
    assert!(matches!(result.unwrap_err(), VeloError::NoFilePath));
}

#[test]
fn test_command_names() {
    assert_eq!(InsertChar::new('a').name(), "insert_char");
    assert_eq!(DeleteChar::new().name(), "delete_char");
    assert_eq!(MoveCursor::new(Position::new(0, 0)).name(), "move_cursor");
    assert_eq!(SaveFile::new().name(), "save_file");
    assert_eq!(OpenFile::new(PathBuf::from("test.txt")).name(), "open_file");
}

#[test]
fn test_insert_char_multiline() {
    let mut state = EditorState::new();
    let buffer = Buffer::from_text("Line 1\nLine 2");
    state.open_buffer(buffer);

    state.active_buffer_mut().unwrap().cursor = Position::new(1, 6);

    let mut cmd = InsertChar::new('!');
    cmd.execute(&mut state).unwrap();

    let buffer = state.active_buffer().unwrap();
    assert_eq!(buffer.text(), "Line 1\nLine 2!");
}

#[test]
fn test_delete_char_multiline() {
    let mut state = EditorState::new();
    let buffer = Buffer::from_text("Line 1\nLine 2!");
    state.open_buffer(buffer);

    state.active_buffer_mut().unwrap().cursor = Position::new(1, 6);

    let mut cmd = DeleteChar::new();
    cmd.execute(&mut state).unwrap();

    let buffer = state.active_buffer().unwrap();
    assert_eq!(buffer.text(), "Line 1\nLine 2");
}

#[test]
fn test_commands_require_active_buffer() {
    let mut state = EditorState::new();

    let insert_result = InsertChar::new('a').execute(&mut state);
    assert!(insert_result.is_err());
    assert!(matches!(
        insert_result.unwrap_err(),
        VeloError::NoBuffersOpen
    ));

    let delete_result = DeleteChar::new().execute(&mut state);
    assert!(delete_result.is_err());
    assert!(matches!(
        delete_result.unwrap_err(),
        VeloError::NoBuffersOpen
    ));

    let move_result = MoveCursor::new(Position::new(0, 0)).execute(&mut state);
    assert!(move_result.is_err());
    assert!(matches!(move_result.unwrap_err(), VeloError::NoBuffersOpen));

    let save_result = SaveFile::new().execute(&mut state);
    assert!(save_result.is_err());
    assert!(matches!(save_result.unwrap_err(), VeloError::NoBuffersOpen));
}

#[test]
fn test_open_file_nonexistent_fails() {
    let mut state = EditorState::new();

    let mut cmd = OpenFile::new(PathBuf::from("/nonexistent/file.txt"));
    // The read of a missing file fails; the command is handed that failure.
    let read: Result<String, String> = Err("No such file or directory (os error 2)".to_string());
    let result = cmd.execute_with_contents(&mut state, read);

    assert!(result.is_err());
    assert!(matches!(result.unwrap_err(), VeloError::IoError(_)));
    assert_eq!(state.buffer_count(), 0);
}
