//! The events that the editor reports to plugins.

use vstd::prelude::*;
use std::path::PathBuf;
use crate::position::{Position, Selection};

verus! {

/// Something that happened in the editor.
#[derive(Debug, Clone)]
pub enum EditorEvent {
    BufferOpened { buffer_id: usize, path: Option<PathBuf> },
    BufferClosed { buffer_id: usize },
    BufferModified { buffer_id: usize },
    BufferSaved { buffer_id: usize, path: PathBuf },
    CursorMoved { buffer_id: usize, new_pos: Position },
    SelectionChanged { buffer_id: usize, selection: Selection },
    VeloStarted,
    VeloShutdown,
    KeyPressed { key: String, modifiers: Vec<String> },
}

} // verus!
