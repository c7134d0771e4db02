//! The snapshot of the editor that a front end draws from.

use vstd::prelude::*;
use tree_sitter::Tree;
use crate::buffer::Buffer;
use crate::position::{Position, Selection};
use crate::state::{active_index, EditorState};
use crate::syntax::tree_clone;

verus! {

/// What the user interface needs to draw a buffer: its text, its syntax
/// tree, its cursor and its selections.
pub struct RenderState {
    pub buffer_text: String,
    pub syntax_tree: Option<Tree>,
    pub cursor: Position,
    pub selections: Vec<Selection>,
}

impl RenderState {
    /// The snapshot shows `b`: same text, cursor, selections and syntax
    /// tree.
    pub open spec fn shows(self, b: Buffer) -> bool {
        &&& self.buffer_text@ == b@.text
        &&& self.cursor == b.cursor
        &&& self.selections@ == b.selections@
        &&& self.syntax_tree == b.syntax_tree
    }

    /// The snapshot of an editor state: of its active buffer, or the empty
    /// snapshot when there is no active buffer.
    pub open spec fn snapshot_of(self, state: EditorState) -> bool {
        &&& active_index(state@) matches Ok(i) ==> self.shows(state.buffers@[i as int])
        &&& active_index(state@) is Err ==> self.is_empty_snapshot()
    }

    /// The snapshot of no buffer: empty text, cursor at the origin, no
    /// selections, no tree.
    pub open spec fn is_empty_snapshot(self) -> bool {
        &&& self.buffer_text@ == Seq::<char>::empty()
        &&& self.cursor == Position { line: 0, column: 0 }
        &&& self.selections@ == Seq::<Selection>::empty()
        &&& self.syntax_tree is None
    }

    /// A snapshot of `buffer`.
    pub fn from_buffer(buffer: &Buffer) -> (r: Self)
        ensures
            r.shows(*buffer),
    {
        let syntax_tree = match &buffer.syntax_tree {
            Some(t) => Some(tree_clone(t)),
            None => None,
        };
        let mut selections: Vec<Selection> = Vec::new();
        let mut i: usize = 0;
        while i < buffer.selections.len()
            invariant
                i <= buffer.selections@.len(),
                selections@ == buffer.selections@.take(i as int),
            decreases buffer.selections@.len() - i,
        {
            selections.push(buffer.selections[i]);
            i = i + 1;
            assert(selections@ =~= buffer.selections@.take(i as int));
        }
        assert(buffer.selections@.take(i as int) =~= buffer.selections@);
        Self { buffer_text: buffer.text(), syntax_tree, cursor: buffer.cursor, selections }
    }

    /// A snapshot of the active buffer, or the empty snapshot when there is
    /// no active buffer.
    pub fn from_state(state: &EditorState) -> (r: Self)
        ensures
            r.snapshot_of(*state),
    {
        match state.active_buffer() {
            Ok(buffer) => Self::from_buffer(buffer),
            Err(_) => Self {
                buffer_text: String::new(),
                syntax_tree: None,
                cursor: Position::new(0, 0),
                selections: Vec::new(),
            },
        }
    }
}

} // verus!
