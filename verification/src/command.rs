//! Commands: every change to the editor state is a command that can be
//! executed and, where it makes sense, undone.

use vstd::prelude::*;
use std::path::PathBuf;
use crate::buffer::{delete_char_spec, insert_char_spec, index_of, Buffer, BufferView};
use crate::errors::VeloError;
use crate::mode::plain_text_box;
use crate::position::Position;
use crate::rope::{rope_char, rope_len_chars};
use crate::state::{active_id_valid, active_index, close_spec, open_spec, EditorState, StateView};
use crate::text::{
    agree_upto, char_index, ends_line, lemma_line_start, lemma_position_kept, lemma_valid_pos_index,
    valid_pos,
};

verus! {

/// A change to the editor state, with an optional way back.
pub trait Command {
    /// Applies the command to the state.
    fn execute(&mut self, state: &mut EditorState) -> Result<(), VeloError>;

    /// Restores the state from before `execute`; commands that cannot be
    /// undone answer `UndoNotSupported`.
    fn undo(&self, state: &mut EditorState) -> (r: Result<(), VeloError>)
        default_ensures
            r matches Err(e) && e is UndoNotSupported,
            *final(state) == *old(state),
    {
        let _ = state;
        Err(VeloError::UndoNotSupported)
    }

    /// The command's name.
    fn name(&self) -> &str;
}

/// The message of an undo that has nothing to undo.
pub open spec fn no_undo_info_message() -> Seq<char> {
    "No undo information available"@
}

fn no_undo_info() -> (e: VeloError)
    ensures
        e matches VeloError::Other(m) && m@ == no_undo_info_message(),
{
    VeloError::Other(String::from_str("No undo information available"))
}

proof fn lemma_update_same<T>(s: Seq<T>, i: int)
    requires
        0 <= i < s.len(),
    ensures
        s.update(i, s[i]) == s,
{
    assert(s.update(i, s[i]) =~= s);
}

/// The state with buffer `i` replaced by `b`.
pub open spec fn with_buffer(v: StateView, i: nat, b: BufferView) -> StateView {
    StateView { buffers: v.buffers.update(i as int, b), ..v }
}

/// The buffer with its cursor at `p`.
pub open spec fn with_cursor(b: BufferView, p: Position) -> BufferView {
    BufferView { cursor: p, ..b }
}

/// Every buffer keeps its syntax tree.
pub open spec fn trees_kept(old: EditorState, new: EditorState) -> bool {
    forall|k: int|
        0 <= k < old.buffers@.len() ==> (#[trigger] new.buffers@[k]).syntax_tree
            == old.buffers@[k].syntax_tree
}

/// The state changes that a command makes to `old` to give `new`, beyond the
/// buffers' views, are none: the buffer list keeps its length, each buffer
/// keeps its modes and its syntax tree, unless an edit left the tree up to
/// date for its parser, and the active id, configuration and registries stay.
pub open spec fn only_views_change(old: EditorState, new: EditorState) -> bool {
    &&& new.buffers@.len() == old.buffers@.len()
    &&& forall|k: int| 0 <= k < old.buffers@.len() ==> (#[trigger] new.buffers@[k]).same_modes(old.buffers@[k])
    &&& forall|k: int|
        0 <= k < old.buffers@.len() ==> (#[trigger] new.buffers@[k]).syntax_tree
            == old.buffers@[k].syntax_tree || new.buffers@[k].tree_cleared()
    &&& new.active_buffer_id == old.active_buffer_id
    &&& new.same_setup(old)
}

/// Executing `InsertChar(ch)`: `ch` goes in at the active buffer's cursor,
/// and the cursor moves one column on.
pub open spec fn insert_char_exec(v: StateView, ch: char) -> (StateView, Result<(), VeloError>) {
    match active_index(v) {
        Err(e) => (v, Err(e)),
        Ok(i) => {
            let b = v.buffers[i as int];
            let (b1, r) = insert_char_spec(b, ch);
            if r is Ok {
                (
                    with_buffer(
                        v,
                        i,
                        with_cursor(
                            b1,
                            Position { line: b.cursor.line, column: (b.cursor.column + 1) as usize },
                        ),
                    ),
                    Ok(()),
                )
            } else {
                (v, r)
            }
        },
    }
}

/// Undoing `InsertChar` that was executed with the cursor at `p` and the
/// dirty flag `d`: the cursor goes back to `p` and the char there is
/// deleted, after which the dirty flag comes back; when the deletion fails,
/// the cursor stays at `p`.
pub open spec fn insert_char_undo(v: StateView, p: Position, d: bool) -> (
    StateView,
    Result<(), VeloError>,
) {
    match active_index(v) {
        Err(e) => (v, Err(e)),
        Ok(i) => {
            let (b1, r) = delete_char_spec(with_cursor(v.buffers[i as int], p));
            if r is Ok {
                (with_buffer(v, i, BufferView { is_dirty: d, ..b1 }), r)
            } else {
                (with_buffer(v, i, b1), r)
            }
        },
    }
}

/// Executing `DeleteChar`: the char at the active buffer's cursor goes.
pub open spec fn delete_char_exec(v: StateView) -> (StateView, Result<(), VeloError>) {
    match active_index(v) {
        Err(e) => (v, Err(e)),
        Ok(i) => {
            let (b1, r) = delete_char_spec(v.buffers[i as int]);
            (with_buffer(v, i, b1), r)
        },
    }
}

/// Undoing `DeleteChar` that deleted `ch` with the cursor at `p` and the
/// dirty flag `d`: `ch` goes back in at `p`, where the cursor is left, and
/// the dirty flag comes back; when the insertion fails, the cursor stays at
/// `p`.
pub open spec fn delete_char_undo(v: StateView, ch: char, p: Position, d: bool) -> (
    StateView,
    Result<(), VeloError>,
) {
    match active_index(v) {
        Err(e) => (v, Err(e)),
        Ok(i) => {
            let (b1, r) = insert_char_spec(with_cursor(v.buffers[i as int], p), ch);
            if r is Ok {
                (with_buffer(v, i, BufferView { is_dirty: d, ..b1 }), r)
            } else {
                (with_buffer(v, i, b1), r)
            }
        },
    }
}

/// Executing `MoveCursor(p)`: the active buffer's cursor moves to `p` when
/// `p` names a char index.
pub open spec fn move_cursor_exec(v: StateView, p: Position) -> (StateView, Result<(), VeloError>) {
    match active_index(v) {
        Err(e) => (v, Err(e)),
        Ok(i) => {
            let b = v.buffers[i as int];
            match index_of(b.text, p) {
                Err(e) => (v, Err(e)),
                Ok(_) => (with_buffer(v, i, with_cursor(b, p)), Ok(())),
            }
        },
    }
}

/// Undoing `MoveCursor` that moved the cursor away from `p`: the cursor goes
/// back to `p`.
pub open spec fn move_cursor_undo(v: StateView, p: Position) -> (StateView, Result<(), VeloError>) {
    match active_index(v) {
        Err(e) => (v, Err(e)),
        Ok(i) => (with_buffer(v, i, with_cursor(v.buffers[i as int], p)), Ok(())),
    }
}

/// Inserts a char at the cursor of the active buffer.
pub struct InsertChar {
    pub ch: char,
    undo_info: Option<(Position, bool)>,
}

impl InsertChar {
    /// The cursor position and the dirty flag that the last start of
    /// `execute` on an active buffer saw, which `undo` returns to.
    pub closed spec fn saved(self) -> Option<(Position, bool)> {
        self.undo_info
    }

    /// The char the command inserts.
    pub closed spec fn inserted(self) -> char {
        self.ch
    }

    pub fn new(ch: char) -> (c: Self)
        ensures
            c.inserted() == ch,
            c.saved() is None,
    {
        Self { ch, undo_info: None }
    }
}

/// The active buffer's cursor and dirty flag.
pub open spec fn cursor_and_dirty(v: StateView) -> (Position, bool) {
    let b = v.buffers[v.active as int];
    (b.cursor, b.is_dirty)
}

impl Command for InsertChar {
    /// Inserts the char at the active buffer's cursor and moves the cursor
    /// one column on; remembers, before trying, where the cursor was and
    /// whether the buffer was modified.
    fn execute(&mut self, state: &mut EditorState) -> (r: Result<(), VeloError>)
        ensures
            (final(state)@, r) == insert_char_exec(old(state)@, old(self).inserted()),
            only_views_change(*old(state), *final(state)),
            final(self).inserted() == old(self).inserted(),
            active_index(old(state)@) is Ok ==> final(self).saved() == Some(
                cursor_and_dirty(old(state)@),
            ),
            active_index(old(state)@) is Err ==> final(self).saved() == old(self).saved(),
    {
        let buffer = state.active_buffer_mut()?;
        let cursor_pos = buffer.cursor;
        self.undo_info = Some((cursor_pos, buffer.is_dirty));
        if let Err(e) = buffer.insert_char(self.ch) {
            proof {
                lemma_update_same(old(state).buffers@, old(state).active_buffer_id as int);
            }
            return Err(e);
        }
        proof {
            lemma_valid_pos_index(old(state)@.buffers[old(state).active_buffer_id as int].text, cursor_pos);
        }
        buffer.cursor = Position::new(cursor_pos.line, cursor_pos.column + 1);
        proof {
            assert(final(state)@.buffers =~= insert_char_exec(old(state)@, old(self).ch).0.buffers);
        }
        Ok(())
    }

    /// Moves the cursor back to where the char went in, deletes it, and puts
    /// the dirty flag back; fails with the active buffer's error, when
    /// nothing was executed, or as the deletion fails (the cursor moved).
    fn undo(&self, state: &mut EditorState) -> (r: Result<(), VeloError>)
        ensures
            active_index(old(state)@) matches Err(e) ==> (r == Err::<(), VeloError>(e)
                && *final(state) == *old(state)),
            active_index(old(state)@) is Ok && self.saved() is None ==> (r matches Err(
                VeloError::Other(m),
            ) && m@ == no_undo_info_message() && final(state)@ == old(state)@),
            self.saved() matches Some((p, d)) ==> (final(state)@, r) == insert_char_undo(
                old(state)@,
                p,
                d,
            ),
            only_views_change(*old(state), *final(state)),
    {
        let buffer = state.active_buffer_mut()?;
        let (original_pos, was_dirty) = match self.undo_info {
            Some(info) => info,
            None => {
                proof {
                    lemma_update_same(old(state).buffers@, old(state).active_buffer_id as int);
                }
                return Err(no_undo_info());
            },
        };
        buffer.cursor = original_pos;
        if let Err(e) = buffer.delete_char() {
            proof {
                assert(final(state)@.buffers =~= insert_char_undo(old(state)@, original_pos, was_dirty).0.buffers);
            }
            return Err(e);
        }
        buffer.is_dirty = was_dirty;
        proof {
            assert(final(state)@.buffers =~= insert_char_undo(old(state)@, original_pos, was_dirty).0.buffers);
        }
        Ok(())
    }

    fn name(&self) -> (n: &str)
        ensures
            n@ == "insert_char"@,
    {
        "insert_char"
    }
}

/// Deletes the char at the cursor of the active buffer.
pub struct DeleteChar {
    undo_info: Option<(char, Position, bool)>,
}

impl DeleteChar {
    /// The char that the last successful `execute` is deleting, the cursor
    /// position it is deleted at, and the dirty flag before.
    pub closed spec fn saved(self) -> Option<(char, Position, bool)> {
        self.undo_info
    }

    pub fn new() -> (c: Self)
        ensures
            c.saved() is None,
    {
        Self { undo_info: None }
    }
}

/// The char at the active buffer's cursor.
pub open spec fn char_at_cursor(v: StateView) -> char {
    let b = v.buffers[v.active as int];
    b.text[char_index(b.text, b.cursor)]
}

impl Command for DeleteChar {
    /// Deletes the char at the active buffer's cursor; remembers it, the
    /// cursor position, and whether the buffer was modified.
    fn execute(&mut self, state: &mut EditorState) -> (r: Result<(), VeloError>)
        ensures
            (final(state)@, r) == delete_char_exec(old(state)@),
            only_views_change(*old(state), *final(state)),
            r is Ok ==> ({
                let (p, d) = cursor_and_dirty(old(state)@);
                final(self).saved() == Some((char_at_cursor(old(state)@), p, d))
            }),
            r is Err ==> final(self).saved() == old(self).saved(),
    {
        let buffer = state.active_buffer_mut()?;
        let cursor_pos = buffer.cursor;
        let char_idx = match buffer.position_to_char_idx(cursor_pos) {
            Ok(i) => i,
            Err(e) => {
                proof {
                    lemma_update_same(old(state).buffers@, old(state).active_buffer_id as int);
                    lemma_update_same(old(state)@.buffers, old(state).active_buffer_id as int);
                }
                return Err(e);
            },
        };
        if char_idx >= rope_len_chars(&buffer.rope) {
            proof {
                lemma_update_same(old(state).buffers@, old(state).active_buffer_id as int);
                lemma_update_same(old(state)@.buffers, old(state).active_buffer_id as int);
            }
            return Err(VeloError::InvalidPosition);
        }
        let ch = rope_char(&buffer.rope, char_idx);
        self.undo_info = Some((ch, cursor_pos, buffer.is_dirty));
        let r = buffer.delete_char();
        proof {
            assert(final(state)@.buffers =~= delete_char_exec(old(state)@).0.buffers);
        }
        r
    }

    /// Puts the deleted char back at the position it was deleted from,
    /// leaving the cursor there, and puts the dirty flag back; fails when
    /// nothing was executed, with the active buffer's error, or as the
    /// insertion fails (the cursor moved).
    fn undo(&self, state: &mut EditorState) -> (r: Result<(), VeloError>)
        ensures
            self.saved() is None ==> (r matches Err(VeloError::Other(m)) && m@
                == no_undo_info_message() && *final(state) == *old(state)),
            self.saved() matches Some((ch, p, d)) ==> (final(state)@, r) == delete_char_undo(
                old(state)@,
                ch,
                p,
                d,
            ),
            only_views_change(*old(state), *final(state)),
    {
        let (ch, pos, was_dirty) = match self.undo_info {
            Some(info) => info,
            None => return Err(no_undo_info()),
        };
        let buffer = state.active_buffer_mut()?;
        buffer.cursor = pos;
        if let Err(e) = buffer.insert_char(ch) {
            proof {
                assert(final(state)@.buffers =~= delete_char_undo(old(state)@, ch, pos, was_dirty).0.buffers);
            }
            return Err(e);
        }
        buffer.cursor = pos;
        buffer.is_dirty = was_dirty;
        proof {
            assert(final(state)@.buffers =~= delete_char_undo(old(state)@, ch, pos, was_dirty).0.buffers);
        }
        Ok(())
    }

    fn name(&self) -> (n: &str)
        ensures
            n@ == "delete_char"@,
    {
        "delete_char"
    }
}

/// Moves the cursor of the active buffer.
pub struct MoveCursor {
    pub new_position: Position,
    undo_info: Option<Position>,
}

impl MoveCursor {
    /// The cursor position that the last successful `execute` moved away
    /// from.
    pub closed spec fn saved(self) -> Option<Position> {
        self.undo_info
    }

    /// The position the command moves the cursor to.
    pub closed spec fn target(self) -> Position {
        self.new_position
    }

    pub fn new(new_position: Position) -> (c: Self)
        ensures
            c.target() == new_position,
            c.saved() is None,
    {
        Self { new_position, undo_info: None }
    }
}

impl Command for MoveCursor {
    /// Moves the active buffer's cursor to the target when the target names a
    /// char index; remembers where the cursor was.
    fn execute(&mut self, state: &mut EditorState) -> (r: Result<(), VeloError>)
        ensures
            (final(state)@, r) == move_cursor_exec(old(state)@, old(self).target()),
            only_views_change(*old(state), *final(state)),
            trees_kept(*old(state), *final(state)),
            final(self).target() == old(self).target(),
            r is Ok ==> final(self).saved() == Some(
                old(state)@.buffers[old(state).active_buffer_id as int].cursor,
            ),
            r is Err ==> final(self).saved() == old(self).saved(),
    {
        let buffer = state.active_buffer_mut()?;
        if let Err(e) = buffer.position_to_char_idx(self.new_position) {
            proof {
                lemma_update_same(old(state).buffers@, old(state).active_buffer_id as int);
            }
            return Err(e);
        }
        self.undo_info = Some(buffer.cursor);
        buffer.cursor = self.new_position;
        proof {
            assert(final(state)@.buffers =~= move_cursor_exec(old(state)@, old(self).target()).0.buffers);
        }
        Ok(())
    }

    /// Moves the cursor back; fails when nothing was executed, or with the
    /// active buffer's error.
    fn undo(&self, state: &mut EditorState) -> (r: Result<(), VeloError>)
        ensures
            self.saved() is None ==> (r matches Err(VeloError::Other(m)) && m@
                == no_undo_info_message() && *final(state) == *old(state)),
            self.saved() matches Some(p) ==> (final(state)@, r) == move_cursor_undo(old(state)@, p),
            only_views_change(*old(state), *final(state)),
            trees_kept(*old(state), *final(state)),
    {
        let old_pos = match self.undo_info {
            Some(p) => p,
            None => return Err(no_undo_info()),
        };
        let buffer = state.active_buffer_mut()?;
        buffer.cursor = old_pos;
        proof {
            assert(final(state)@.buffers =~= move_cursor_undo(old(state)@, old_pos).0.buffers);
        }
        Ok(())
    }

    fn name(&self) -> (n: &str)
        ensures
            n@ == "move_cursor"@,
    {
        "move_cursor"
    }
}

/// What saving the active buffer writes: the buffer's id, its file, and its
/// text.
#[derive(Debug)]
pub struct SaveRequest {
    pub buffer_id: usize,
    pub path: PathBuf,
    pub text: String,
}

/// Saves the active buffer to its file. The file is written by the caller:
/// `execute` says what to write, and `finish` records the outcome.
pub struct SaveFile;

impl SaveFile {
    pub fn new() -> Self {
        Self
    }

    /// What to write to save the active buffer; the active buffer's error,
    /// or `NoFilePath` when the buffer has no file.
    pub fn execute(&self, state: &EditorState) -> (r: Result<SaveRequest, VeloError>)
        ensures
            active_index(state@) matches Err(e) ==> r == Err::<SaveRequest, VeloError>(e),
            active_index(state@) matches Ok(i) ==> ({
                let b = state@.buffers[i as int];
                &&& b.file_path is None ==> (r matches Err(e) && e is NoFilePath)
                &&& b.file_path matches Some(p) ==> (r matches Ok(req) && req.buffer_id == i
                    && req.path == p && req.text@ == b.text)
            }),
    {
        let buffer = state.active_buffer()?;
        let (path, text) = buffer.contents_to_save()?;
        Ok(SaveRequest { buffer_id: state.active_buffer_id, path: path.clone(), text })
    }

    /// Records the outcome of writing a save request: a failed write is an
    /// `IoError` with its message, and a successful one marks the buffer
    /// saved.
    pub fn finish(&self, state: &mut EditorState, request: &SaveRequest, written: Result<(), String>) -> (r: Result<(), VeloError>)
        ensures
            written matches Err(m) ==> (r matches Err(VeloError::IoError(m2)) && m2 == m
                && *final(state) == *old(state)),
            written is Ok && request.buffer_id >= old(state).buffers@.len() ==> (r matches Err(e)
                && e is InvalidBufferId && *final(state) == *old(state)),
            written is Ok && request.buffer_id < old(state).buffers@.len() ==> (r is Ok
                && final(state)@ == with_buffer(
                old(state)@,
                request.buffer_id as nat,
                BufferView { is_dirty: false, ..old(state)@.buffers[request.buffer_id as int] },
            ) && only_views_change(*old(state), *final(state))),
    {
        match written {
            Err(msg) => Err(VeloError::IoError(msg)),
            Ok(()) => {
                let buffer = state.buffer_mut(request.buffer_id)?;
                buffer.mark_saved();
                proof {
                    assert(final(state)@.buffers =~= with_buffer(
                        old(state)@,
                        request.buffer_id as nat,
                        BufferView { is_dirty: false, ..old(state)@.buffers[request.buffer_id as int] },
                    ).buffers);
                }
                Ok(())
            },
        }
    }

    /// Saving cannot be undone.
    pub fn undo(&self, state: &mut EditorState) -> (r: Result<(), VeloError>)
        ensures
            r matches Err(e) && e is UndoNotSupported,
            *final(state) == *old(state),
    {
        Err(VeloError::UndoNotSupported)
    }

    pub fn name(&self) -> (n: &str)
        ensures
            n@ == "save_file"@,
    {
        "save_file"
    }
}

/// Opens a file into a new buffer. The file is read by the caller, which
/// hands its contents, or the message of the failed read, to
/// `execute_with_contents`.
pub struct OpenFile {
    pub path: PathBuf,
    undo_info: Option<(usize, usize)>,
}

/// Undoing `OpenFile` that opened buffer `id` while buffer `prev` was
/// active: buffer `id` is closed, and buffer `prev` becomes active again when
/// it is still there.
pub open spec fn open_file_undo(v: StateView, id: nat, prev: nat) -> (StateView, Result<(), VeloError>) {
    let (v1, r) = close_spec(v, id);
    if r is Ok && prev < v1.buffers.len() {
        (StateView { active: prev, ..v1 }, r)
    } else {
        (v1, r)
    }
}

impl OpenFile {
    /// What the last successful execution saw: the id of the buffer it
    /// opened, and the id of the buffer that was active before.
    pub closed spec fn saved(self) -> Option<(usize, usize)> {
        self.undo_info
    }

    /// The file the command opens.
    pub closed spec fn file(self) -> PathBuf {
        self.path
    }

    pub fn new(path: PathBuf) -> (c: Self)
        ensures
            c.file() == path,
            c.saved() is None,
    {
        Self { path, undo_info: None }
    }

    /// Opens a buffer for the file's contents, in plain-text mode, and makes
    /// it active; a failed read is an `IoError` with its message, changing
    /// nothing.
    pub fn execute_with_contents(&mut self, state: &mut EditorState, contents: Result<String, String>) -> (r: Result<(), VeloError>)
        ensures
            contents matches Err(m) ==> (r matches Err(VeloError::IoError(m2)) && m2 == m
                && *final(state) == *old(state) && final(self).saved() == old(self).saved()),
            contents matches Ok(c) ==> (r is Ok && final(state)@ == open_spec(
                old(state)@,
                crate::buffer::fresh_view(c@, Some(old(self).file())),
            ) && final(self).saved() == Some(
                (old(state).buffers@.len() as usize, old(state).active_buffer_id),
            ) && final(state).buffers@.drop_last() == old(state).buffers@
                && final(state).buffers@.last().major_mode == plain_text_box()
                && final(state).buffers@.last().minor_modes@.len() == 0
                && final(state).buffers@.last().syntax_tree is None
                && final(state).same_setup(*old(state))),
            final(self).file() == old(self).file(),
    {
        let content = match contents {
            Ok(c) => c,
            Err(msg) => return Err(VeloError::IoError(msg)),
        };
        let buffer = Buffer::from_file(self.path.clone(), content.as_str());
        let prev_active = state.active_buffer_id;
        let buffer_id = state.open_buffer(buffer);
        self.undo_info = Some((buffer_id, prev_active));
        Ok(())
    }

    /// Closes the buffer that was opened and makes the buffer that was active
    /// before active again; fails when nothing was executed, or as closing
    /// that buffer fails.
    pub fn undo(&self, state: &mut EditorState) -> (r: Result<(), VeloError>)
        ensures
            self.saved() is None ==> (r matches Err(VeloError::Other(m)) && m@
                == no_undo_info_message() && *final(state) == *old(state)),
            self.saved() matches Some((id, prev)) ==> (final(state)@, r) == open_file_undo(
                old(state)@,
                id as nat,
                prev as nat,
            ),
            self.saved() matches Some((id, _)) ==> (r is Ok
                ==> final(state).buffers@ == old(state).buffers@.remove(id as int)),
            r is Err ==> *final(state) == *old(state),
            final(state).same_setup(*old(state)),
    {
        let (buffer_id, prev_active) = match self.undo_info {
            Some(info) => info,
            None => return Err(no_undo_info()),
        };
        state.close_buffer(buffer_id)?;
        if prev_active < state.buffers.len() {
            state.active_buffer_id = prev_active;
        }
        Ok(())
    }

    pub fn name(&self) -> (n: &str)
        ensures
            n@ == "open_file"@,
    {
        "open_file"
    }
}

/// `:plugin install <name>`: installs a plugin library into the plugin
/// directory. The file is written by the caller; the command names it.
pub struct InstallPlugin {
    pub name: String,
}

impl InstallPlugin {
    pub fn new(name: String) -> (c: Self)
        ensures
            c.name == name,
    {
        Self { name }
    }

    /// The plugin's file name: its name with ".so" after it.
    pub fn file_name(&self) -> (f: String)
        ensures
            f@ == self.name@ + ".so"@,
    {
        let n = self.name.clone();
        n.concat(".so")
    }

    /// Installing cannot be undone.
    pub fn undo(&self, state: &mut EditorState) -> (r: Result<(), VeloError>)
        ensures
            r matches Err(e) && e is UndoNotSupported,
            *final(state) == *old(state),
    {
        Err(VeloError::UndoNotSupported)
    }

    pub fn name(&self) -> (n: &str)
        ensures
            n@ == "install_plugin"@,
    {
        "install_plugin"
    }
}

/// Inserting `ch` at `p` would join a CR that ends the previous line with
/// the LF being inserted, so that line `p.line` no longer starts at `p`.
pub open spec fn insert_joins_crlf(t: Seq<char>, p: Position, ch: char) -> bool {
    let j = char_index(t, p);
    &&& ch == '\n'
    &&& p.column == 0
    &&& j > 0
    &&& t[j - 1] == '\r'
}

/// Deleting the char at `p` would bring a CR that ends the previous line
/// next to an LF, so that line `p.line` no longer starts at `p`.
pub open spec fn delete_joins_crlf(t: Seq<char>, p: Position) -> bool {
    let j = char_index(t, p);
    &&& p.column == 0
    &&& j > 0
    &&& t[j - 1] == '\r'
    &&& j + 1 < t.len()
    &&& t[j + 1] == '\n'
}

/// Undo after execute, for `InsertChar`: undoing a successful insertion,
/// with what `execute` saved, gives back exactly the view of the state from
/// before it (the text, the cursor and the dirty flag of the active buffer),
/// unless the inserted LF joined a CR before it.
pub proof fn insert_char_undo_restores(v: StateView, ch: char)
    requires
        insert_char_exec(v, ch).1 is Ok,
        !insert_joins_crlf(v.buffers[v.active as int].text, v.buffers[v.active as int].cursor, ch),
    ensures
        ({
            let (p, d) = cursor_and_dirty(v);
            insert_char_undo(insert_char_exec(v, ch).0, p, d) == (v, Ok::<(), VeloError>(()))
        }),
{
    let i = v.active;
    let b = v.buffers[i as int];
    let t = b.text;
    let p = b.cursor;
    let j = char_index(t, p);
    lemma_valid_pos_index(t, p);
    let t2 = t.take(j) + seq![ch] + t.skip(j);
    assert(agree_upto(t, t2, j));
    if p.column == 0 && j > 0 {
        lemma_line_start(t, p.line as nat);
        assert(ends_line(t, j - 1));
        assert(t2[j - 1] == t[j - 1] && t2[j] == ch);
    }
    lemma_position_kept(t, t2, p);
    let v1 = insert_char_exec(v, ch).0;
    assert(v1.buffers[i as int].text == t2);
    assert(t2.take(j) + t2.skip(j + 1) =~= t);
    assert(v1.buffers.update(i as int, b) =~= v.buffers);
}

/// Undo after execute, for `DeleteChar`: undoing a successful deletion, with
/// what `execute` saved, gives back exactly the view of the state from
/// before it (the text, the cursor and the dirty flag of the active buffer),
/// unless the deletion brought a CR that ends the previous line next to an
/// LF.
pub proof fn delete_char_undo_restores(v: StateView)
    requires
        delete_char_exec(v).1 is Ok,
        !delete_joins_crlf(v.buffers[v.active as int].text, v.buffers[v.active as int].cursor),
    ensures
        ({
            let (p, d) = cursor_and_dirty(v);
            delete_char_undo(delete_char_exec(v).0, char_at_cursor(v), p, d) == (
                v,
                Ok::<(), VeloError>(()),
            )
        }),
{
    let i = v.active;
    let b = v.buffers[i as int];
    let t = b.text;
    let p = b.cursor;
    let j = char_index(t, p);
    lemma_valid_pos_index(t, p);
    let t2 = t.take(j) + t.skip(j + 1);
    assert(agree_upto(t, t2, j));
    if p.column == 0 && j > 0 {
        lemma_line_start(t, p.line as nat);
        assert(ends_line(t, j - 1));
        assert(t2[j - 1] == t[j - 1]);
        if j < t2.len() {
            assert(t2[j] == t[j + 1]);
        }
    }
    lemma_position_kept(t, t2, p);
    let v1 = delete_char_exec(v).0;
    assert(v1.buffers[i as int].text == t2);
    assert(t2.take(j) + seq![t[j]] + t2.skip(j) =~= t);
    assert(v1.buffers.update(i as int, b) =~= v.buffers);
}

/// `MoveCursor` succeeds exactly when there is an active buffer and the
/// target names a char index of its text (so column 0 of every line is
/// accepted); it then moves that buffer's cursor to the target and changes
/// nothing else, and on failure it changes nothing.
pub proof fn move_cursor_accepts_exactly_valid_targets(v: StateView, p: Position)
    ensures
        move_cursor_exec(v, p).1 is Ok <==> (active_index(v) is Ok && valid_pos(
            v.buffers[v.active as int].text,
            p,
        )),
        move_cursor_exec(v, p).1 is Ok ==> move_cursor_exec(v, p).0 == (StateView {
            buffers: v.buffers.update(
                v.active as int,
                BufferView { cursor: p, ..v.buffers[v.active as int] },
            ),
            ..v
        }),
        move_cursor_exec(v, p).1 is Err ==> move_cursor_exec(v, p).0 == v,
{
}

/// `InsertChar` succeeds exactly when there is an active buffer whose cursor
/// names a char index `j`; the char then goes in at `j`, the cursor moves one
/// column on along its line, and the buffer is marked modified. On failure
/// nothing changes. (The text's length, grown by one, fits a `usize`.)
pub proof fn insert_char_puts_the_char_at_the_cursor(v: StateView, ch: char)
    requires
        active_index(v) is Ok ==> v.buffers[v.active as int].text.len() < usize::MAX,
    ensures
        insert_char_exec(v, ch).1 is Ok <==> (active_index(v) is Ok && valid_pos(
            v.buffers[v.active as int].text,
            v.buffers[v.active as int].cursor,
        )),
        insert_char_exec(v, ch).1 is Ok ==> ({
            let b = v.buffers[v.active as int];
            let j = char_index(b.text, b.cursor);
            let b1 = insert_char_exec(v, ch).0.buffers[v.active as int];
            &&& b1.text == b.text.subrange(0, j) + seq![ch] + b.text.subrange(j, b.text.len() as int)
            &&& b1.cursor.line == b.cursor.line && b1.cursor.column == b.cursor.column + 1
            &&& b1.is_dirty
            &&& b1.file_path == b.file_path && b1.selections == b.selections
            &&& insert_char_exec(v, ch).0.buffers == v.buffers.update(v.active as int, b1)
            &&& insert_char_exec(v, ch).0.active == v.active
        }),
        insert_char_exec(v, ch).1 is Err ==> insert_char_exec(v, ch).0 == v,
{
    if insert_char_exec(v, ch).1 is Ok {
        let b = v.buffers[v.active as int];
        let j = char_index(b.text, b.cursor);
        lemma_valid_pos_index(b.text, b.cursor);
        assert(b.text.take(j) + seq![ch] + b.text.skip(j) =~= b.text.subrange(0, j) + seq![ch]
            + b.text.subrange(j, b.text.len() as int));
    }
}

/// `DeleteChar` succeeds exactly when there is an active buffer whose cursor
/// names the index `j` of a char of its text; that char then goes, the
/// cursor stays, and the buffer is marked modified. On failure nothing
/// changes.
pub proof fn delete_char_removes_the_char_at_the_cursor(v: StateView)
    ensures
        delete_char_exec(v).1 is Ok <==> ({
            &&& active_index(v) is Ok
            &&& valid_pos(v.buffers[v.active as int].text, v.buffers[v.active as int].cursor)
            &&& char_index(v.buffers[v.active as int].text, v.buffers[v.active as int].cursor)
                < v.buffers[v.active as int].text.len()
        }),
        delete_char_exec(v).1 is Ok ==> ({
            let b = v.buffers[v.active as int];
            let j = char_index(b.text, b.cursor);
            let b1 = delete_char_exec(v).0.buffers[v.active as int];
            &&& b1.text == b.text.subrange(0, j) + b.text.subrange(j + 1, b.text.len() as int)
            &&& b1.cursor == b.cursor
            &&& b1.is_dirty
            &&& b1.file_path == b.file_path && b1.selections == b.selections
            &&& delete_char_exec(v).0.buffers == v.buffers.update(v.active as int, b1)
            &&& delete_char_exec(v).0.active == v.active
        }),
        delete_char_exec(v).1 is Err ==> delete_char_exec(v).0 == v,
{
    if active_index(v) is Ok {
        let b = v.buffers[v.active as int];
        assert(v.buffers.update(v.active as int, b) =~= v.buffers);
        if delete_char_exec(v).1 is Ok {
            lemma_valid_pos_index(b.text, b.cursor);
            let j = char_index(b.text, b.cursor);
            assert(b.text.take(j) + b.text.skip(j + 1) =~= b.text.subrange(0, j) + b.text.subrange(
                j + 1,
                b.text.len() as int,
            ));
        }
    }
}

/// Undo after execute, for `MoveCursor`: undoing a successful move gives back
/// exactly the state from before it.
pub proof fn move_cursor_undo_restores(v: StateView, p: Position)
    requires
        move_cursor_exec(v, p).1 is Ok,
    ensures
        move_cursor_undo(move_cursor_exec(v, p).0, v.buffers[v.active as int].cursor) == (v, Ok::<
            (),
            VeloError,
        >(())),
{
    let i = v.active;
    let v1 = move_cursor_exec(v, p).0;
    assert(v1.buffers.update(i as int, v.buffers[i as int]) =~= v.buffers);
}

/// Undo after execute, for `OpenFile`: undoing the opening of a buffer, with
/// what `execute` saved, gives back exactly the state from before it, the
/// buffer that was active included, whenever that state's active id was
/// valid.
pub proof fn open_file_undo_restores(v: StateView, b: BufferView)
    requires
        active_id_valid(v),
    ensures
        open_file_undo(open_spec(v, b), v.buffers.len(), v.active) == (v, Ok::<(), VeloError>(())),
{
    assert(v.buffers.push(b).remove(v.buffers.len() as int) =~= v.buffers);
}

} // verus!
