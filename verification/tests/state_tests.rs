use velo::{Buffer, EditorState, VeloError};

#[test]
fn test_editor_state_new() {
    let state = EditorState::new();
    assert_eq!(state.buffers.len(), 0);
    assert_eq!(state.active_buffer_id, 0);
    assert!(state.major_mode_registry.registered_modes().contains(&"plain-text"));
}

#[test]
fn test_editor_state_default() {
    let state = EditorState::default();
    assert_eq!(state.buffers.len(), 0);
    assert_eq!(state.active_buffer_id, 0);
}

#[test]
fn test_editor_state_has_config() {
    let state = EditorState::new();
    assert_eq!(state.config.editor.tab_width, 4);
    assert_eq!(state.config.theme.name, "velo-dark");
}

#[test]
fn test_open_buffer_sets_active() {
    let mut state = EditorState::new();
    let buffer = Buffer::new();
    
    let buffer_id = state.open_buffer(buffer);
    
    assert_eq!(buffer_id, 0);
    assert_eq!(state.active_buffer_id, 0);
    assert_eq!(state.buffers.len(), 1);
}

#[test]
fn test_open_multiple_buffers() {
    let mut state = EditorState::new();
    
    let id1 = state.open_buffer(Buffer::new());
    let id2 = state.open_buffer(Buffer::new());
    let id3 = state.open_buffer(Buffer::new());
    
    assert_eq!(id1, 0);
    assert_eq!(id2, 1);
    assert_eq!(id3, 2);
    assert_eq!(state.active_buffer_id, 2);
    assert_eq!(state.buffers.len(), 3);
}

#[test]
fn test_close_buffer_updates_active_id() {
    let mut state = EditorState::new();
    state.open_buffer(Buffer::new());
    state.open_buffer(Buffer::new());
    state.open_buffer(Buffer::new());
    
    // Active is buffer 2, close it
    state.close_buffer(2).unwrap();
    
    // Active should now be buffer 1 (last buffer)
    assert_eq!(state.active_buffer_id, 1);
    assert_eq!(state.buffers.len(), 2);
}

#[test]
fn test_close_buffer_before_active() {
    let mut state = EditorState::new();
    state.open_buffer(Buffer::new());
    state.open_buffer(Buffer::new());
    state.open_buffer(Buffer::new());
    
    // Active is buffer 2, close buffer 0
    state.close_buffer(0).unwrap();
    
    // Active should be adjusted to buffer 1 (was buffer 2)
    assert_eq!(state.active_buffer_id, 1);
    assert_eq!(state.buffers.len(), 2);
}

#[test]
fn test_close_buffer_after_active() {
    let mut state = EditorState::new();
    state.open_buffer(Buffer::new());
    state.open_buffer(Buffer::new());
    state.open_buffer(Buffer::new());
    
    state.set_active_buffer(1).unwrap();
    
    // Active is buffer 1, close buffer 2
    state.close_buffer(2).unwrap();
    
    // Active should remain buffer 1
    assert_eq!(state.active_buffer_id, 1);
    assert_eq!(state.buffers.len(), 2);
}

#[test]
fn test_close_last_buffer() {
    let mut state = EditorState::new();
    state.open_buffer(Buffer::new());
    
    state.close_buffer(0).unwrap();
    
    // No buffers left, active_buffer_id should be 0
    assert_eq!(state.active_buffer_id, 0);
    assert_eq!(state.buffers.len(), 0);
}

#[test]
fn test_close_invalid_buffer() {
    let mut state = EditorState::new();
    state.open_buffer(Buffer::new());
    
    let result = state.close_buffer(5);
    
    assert!(result.is_err());
    if let Err(e) = result {
        assert!(matches!(e, VeloError::InvalidBufferId));
    }
}

#[test]
fn test_active_buffer_when_empty() {
    let state = EditorState::new();
    
    let result = state.active_buffer();
    
    assert!(result.is_err());
    if let Err(e) = result {
        assert!(matches!(e, VeloError::NoBuffersOpen));
    }
}

#[test]
fn test_active_buffer_mut_when_empty() {
    let mut state = EditorState::new();
    
    let result = state.active_buffer_mut();
    
    assert!(result.is_err());
    if let Err(e) = result {
        assert!(matches!(e, VeloError::NoBuffersOpen));
    }
}

#[test]
fn test_active_buffer_success() {
    let mut state = EditorState::new();
    state.open_buffer(Buffer::from_text("Test content"));
    
    let buffer = state.active_buffer().unwrap();
    
    assert_eq!(buffer.text(), "Test content");
}

#[test]
fn test_active_buffer_mut_success() {
    let mut state = EditorState::new();
    state.open_buffer(Buffer::from_text("Test content"));
    
    let buffer = state.active_buffer_mut().unwrap();
    buffer.insert(velo::Position::new(0, 12), " modified").unwrap();
    
    assert_eq!(buffer.text(), "Test content modified");
}

#[test]
fn test_buffer_by_id() {
    let mut state = EditorState::new();
    state.open_buffer(Buffer::from_text("Buffer 0"));
    state.open_buffer(Buffer::from_text("Buffer 1"));
    state.open_buffer(Buffer::from_text("Buffer 2"));
    
    let buffer = state.buffer(1).unwrap();
    
    assert_eq!(buffer.text(), "Buffer 1");
}

#[test]
fn test_buffer_by_id_invalid() {
    let mut state = EditorState::new();
    state.open_buffer(Buffer::new());
    
    let result = state.buffer(5);
    
    assert!(result.is_err());
    if let Err(e) = result {
        assert!(matches!(e, VeloError::InvalidBufferId));
    }
}

#[test]
fn test_buffer_mut_by_id() {
    let mut state = EditorState::new();
    state.open_buffer(Buffer::from_text("Buffer 0"));
    state.open_buffer(Buffer::from_text("Buffer 1"));
    
    let buffer = state.buffer_mut(1).unwrap();
    buffer.insert(velo::Position::new(0, 8), " modified").unwrap();
    
    assert_eq!(buffer.text(), "Buffer 1 modified");
}

#[test]
fn test_set_active_buffer() {
    let mut state = EditorState::new();
    state.open_buffer(Buffer::new());
    state.open_buffer(Buffer::new());
    state.open_buffer(Buffer::new());
    
    state.set_active_buffer(1).unwrap();
    
    assert_eq!(state.active_buffer_id, 1);
}

#[test]
fn test_set_active_buffer_invalid() {
    let mut state = EditorState::new();
    state.open_buffer(Buffer::new());
    
    let result = state.set_active_buffer(5);
    
    assert!(result.is_err());
    if let Err(e) = result {
        assert!(matches!(e, VeloError::InvalidBufferId));
    }
}

#[test]
fn test_buffer_count() {
    let mut state = EditorState::new();
    
    assert_eq!(state.buffer_count(), 0);
    
    state.open_buffer(Buffer::new());
    assert_eq!(state.buffer_count(), 1);
    
    state.open_buffer(Buffer::new());
    assert_eq!(state.buffer_count(), 2);
    
    state.close_buffer(0).unwrap();
    assert_eq!(state.buffer_count(), 1);
}

#[test]
fn test_active_buffer_id_validity_after_operations() {
    let mut state = EditorState::new();
    
    // Open 3 buffers
    state.open_buffer(Buffer::new());
    state.open_buffer(Buffer::new());
    state.open_buffer(Buffer::new());
    
    // Close middle buffer
    state.close_buffer(1).unwrap();
    
    // Active buffer should still be valid
    assert!(state.active_buffer().is_ok());
    assert!(state.active_buffer_id < state.buffers.len());
}

#[test]
fn test_active_buffer_id_validity_complex_sequence() {
    let mut state = EditorState::new();
    
    // Open buffers
    state.open_buffer(Buffer::new());
    state.open_buffer(Buffer::new());
    state.open_buffer(Buffer::new());
    state.open_buffer(Buffer::new());
    
    // Set active to buffer 1
    state.set_active_buffer(1).unwrap();
    
    // Close buffer 3
    state.close_buffer(3).unwrap();
    assert_eq!(state.active_buffer_id, 1);
    assert!(state.active_buffer().is_ok());
    
    // Close buffer 0
    state.close_buffer(0).unwrap();
    assert_eq!(state.active_buffer_id, 0); // Was 1, now adjusted to 0
    assert!(state.active_buffer().is_ok());
    
    // Close buffer 1 (was originally buffer 2)
    state.close_buffer(1).unwrap();
    assert_eq!(state.active_buffer_id, 0);
    assert!(state.active_buffer().is_ok());
    
    // Close last buffer
    state.close_buffer(0).unwrap();
    assert_eq!(state.active_buffer_id, 0);
    assert_eq!(state.buffers.len(), 0);
}
