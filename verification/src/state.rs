//! The editor state: every open buffer, which one is active, the
//! configuration, and the mode and plugin registries.

use vstd::prelude::*;
use crate::buffer::{Buffer, BufferView};
use crate::config::VeloConfig;
use crate::errors::VeloError;
use crate::mode::{MajorModeRegistry, ModeEntry};
use crate::plugin::PluginRegistry;

verus! {

/// The single source of truth for the editor's mutable state.
pub struct EditorState {
    pub buffers: Vec<Buffer>,
    pub active_buffer_id: usize,
    pub config: VeloConfig,
    pub major_mode_registry: MajorModeRegistry,
    pub plugin_registry: PluginRegistry,
}

/// The buffers and the active buffer, as the editing operations see them.
pub struct StateView {
    pub buffers: Seq<BufferView>,
    pub active: nat,
}

impl View for EditorState {
    type V = StateView;

    open spec fn view(&self) -> StateView {
        StateView {
            buffers: self.buffers@.map_values(|b: Buffer| b@),
            active: self.active_buffer_id as nat,
        }
    }
}

/// The active buffer id is an index into the buffer list when there are
/// buffers, and 0 when there are none.
pub open spec fn active_id_valid(v: StateView) -> bool {
    if v.buffers.len() == 0 {
        v.active == 0
    } else {
        v.active < v.buffers.len()
    }
}

/// The index of the active buffer, or why there is none.
pub open spec fn active_index(v: StateView) -> Result<nat, VeloError> {
    if v.buffers.len() == 0 {
        Err(VeloError::NoBuffersOpen)
    } else if v.active < v.buffers.len() {
        Ok(v.active)
    } else {
        Err(VeloError::InvalidBufferId)
    }
}

/// The active buffer id after closing buffer `id` of `len` buffers.
pub open spec fn active_after_close(active: nat, id: nat, len: nat) -> nat {
    if len == 1 {
        0
    } else if active >= len - 1 {
        (len - 2) as nat
    } else if id < active {
        (active - 1) as nat
    } else {
        active
    }
}

pub open spec fn close_spec(v: StateView, id: nat) -> (StateView, Result<(), VeloError>) {
    if id >= v.buffers.len() {
        (v, Err(VeloError::InvalidBufferId))
    } else {
        (
            StateView {
                buffers: v.buffers.remove(id as int),
                active: active_after_close(v.active, id, v.buffers.len()),
            },
            Ok(()),
        )
    }
}

pub open spec fn open_spec(v: StateView, b: BufferView) -> StateView {
    StateView { buffers: v.buffers.push(b), active: v.buffers.len() }
}

pub open spec fn set_active_spec(v: StateView, id: nat) -> (StateView, Result<(), VeloError>) {
    if id >= v.buffers.len() {
        (v, Err(VeloError::InvalidBufferId))
    } else {
        (StateView { active: id, ..v }, Ok(()))
    }
}

/// Closing a buffer removes it and keeps the rest in order. Closing a
/// buffer other than the active one keeps the same buffer active; closing
/// the active one makes the buffer after it active, or the one before it
/// when it was the last; closing the only buffer leaves none, with id 0.
pub proof fn close_keeps_the_active_buffer(v: StateView, id: nat)
    requires
        active_id_valid(v),
        id < v.buffers.len(),
    ensures
        close_spec(v, id).1 is Ok,
        close_spec(v, id).0.buffers == v.buffers.remove(id as int),
        id != v.active ==> close_spec(v, id).0.buffers[close_spec(v, id).0.active as int]
            == v.buffers[v.active as int],
        id == v.active && id + 1 < v.buffers.len() ==> close_spec(v, id).0.buffers[close_spec(
            v,
            id,
        ).0.active as int] == v.buffers[id as int + 1],
        id == v.active && id + 1 == v.buffers.len() && id > 0 ==> close_spec(v, id).0.buffers[close_spec(
            v,
            id,
        ).0.active as int] == v.buffers[id as int - 1],
        v.buffers.len() == 1 ==> close_spec(v, id).0.buffers.len() == 0 && close_spec(v, id).0.active
            == 0,
{
}

/// An operation on the buffer list.
pub enum BufferOp {
    Open(BufferView),
    Close(nat),
    SetActive(nat),
}

/// The state after one operation; a failed operation leaves it as it was.
pub open spec fn apply_op(v: StateView, op: BufferOp) -> StateView {
    match op {
        BufferOp::Open(b) => open_spec(v, b),
        BufferOp::Close(id) => close_spec(v, id).0,
        BufferOp::SetActive(id) => set_active_spec(v, id).0,
    }
}

/// The state after a sequence of operations, applied in order.
pub open spec fn apply_ops(v: StateView, ops: Seq<BufferOp>) -> StateView
    decreases ops.len(),
{
    if ops.len() == 0 {
        v
    } else {
        apply_ops(apply_op(v, ops[0]), ops.drop_first())
    }
}

/// Active buffer id validity: after any sequence of opening, closing and
/// activating buffers, starting from a valid state, the active buffer id is
/// an index into the buffer list whenever a buffer is open (and 0 when none
/// is), so the active buffer can be fetched exactly when a buffer is open.
pub proof fn active_id_stays_valid(v: StateView, ops: Seq<BufferOp>)
    requires
        active_id_valid(v),
    ensures
        active_id_valid(apply_ops(v, ops)),
        apply_ops(v, ops).buffers.len() > 0 <==> active_index(apply_ops(v, ops)) is Ok,
    decreases ops.len(),
{
    if ops.len() > 0 {
        active_id_valid_after_op(v, ops[0]);
        active_id_stays_valid(apply_op(v, ops[0]), ops.drop_first());
    }
}

/// Each operation keeps a valid active id valid; opening a buffer, or
/// closing an open one, makes it valid whatever it was before.
pub proof fn active_id_valid_after_op(v: StateView, op: BufferOp)
    requires
        active_id_valid(v) || op is Open || (op matches BufferOp::Close(id) && id < v.buffers.len()),
    ensures
        active_id_valid(apply_op(v, op)),
{
}

impl EditorState {
    /// The configuration and the registries are as in `other`.
    pub open spec fn same_setup(self, other: EditorState) -> bool {
        &&& self.config == other.config
        &&& self.major_mode_registry == other.major_mode_registry
        &&& self.plugin_registry == other.plugin_registry
    }

    /// No buffers, the default configuration, the plain-text mode alone in
    /// the mode registry, and no plugins.
    pub fn new() -> (s: Self)
        ensures
            s@.buffers.len() == 0,
            s.buffers@.len() == 0,
            s.active_buffer_id == 0,
            s.config.is_default(),
            s.major_mode_registry@ == seq![
                ModeEntry { name: "plain-text"@, patterns: seq!["*.txt"@] },
            ],
            s.plugin_registry.count() == 0,
    {
        Self {
            buffers: Vec::new(),
            active_buffer_id: 0,
            config: VeloConfig::default(),
            major_mode_registry: MajorModeRegistry::new(),
            plugin_registry: PluginRegistry::new(),
        }
    }

    /// Adds `buffer` after the open ones and makes it active; returns its id.
    pub fn open_buffer(&mut self, buffer: Buffer) -> (id: usize)
        ensures
            id == old(self).buffers@.len(),
            final(self).buffers@ == old(self).buffers@.push(buffer),
            final(self)@ == open_spec(old(self)@, buffer@),
            final(self).same_setup(*old(self)),
    {
        let buffer_id = self.buffers.len();
        self.buffers.push(buffer);
        self.active_buffer_id = buffer_id;
        assert(self@.buffers =~= old(self)@.buffers.push(buffer@));
        buffer_id
    }

    /// Closes buffer `buffer_id`; fails with `InvalidBufferId`, changing
    /// nothing, when there is no such buffer. The active buffer stays the
    /// same buffer when it is not the one closed; when it is, the buffer now
    /// at its index becomes active, or the last buffer when it was the last.
    pub fn close_buffer(&mut self, buffer_id: usize) -> (r: Result<(), VeloError>)
        ensures
            (final(self)@, r) == close_spec(old(self)@, buffer_id as nat),
            r is Ok ==> final(self).buffers@ == old(self).buffers@.remove(buffer_id as int),
            r is Err ==> *final(self) == *old(self),
            final(self).same_setup(*old(self)),
    {
        if buffer_id >= self.buffers.len() {
            return Err(VeloError::InvalidBufferId);
        }
        self.buffers.remove(buffer_id);
        if self.buffers.len() == 0 {
            self.active_buffer_id = 0;
        } else if self.active_buffer_id >= self.buffers.len() {
            self.active_buffer_id = self.buffers.len() - 1;
        } else if buffer_id < self.active_buffer_id {
            self.active_buffer_id = self.active_buffer_id - 1;
        }
        assert(self@.buffers =~= old(self)@.buffers.remove(buffer_id as int));
        Ok(())
    }

    /// The active buffer; `NoBuffersOpen` when no buffer is open, and
    /// `InvalidBufferId` when the active id is out of range.
    pub fn active_buffer(&self) -> (r: Result<&Buffer, VeloError>)
        ensures
            active_index(self@) matches Ok(i) ==> (r matches Ok(b) && *b == self.buffers@[i as int]),
            active_index(self@) matches Err(e) ==> r == Err::<&Buffer, VeloError>(e),
    {
        if self.buffers.len() == 0 {
            return Err(VeloError::NoBuffersOpen);
        }
        if self.active_buffer_id < self.buffers.len() {
            Ok(&self.buffers[self.active_buffer_id])
        } else {
            Err(VeloError::InvalidBufferId)
        }
    }

    /// Buffer `buffer_id`; `InvalidBufferId` when there is no such buffer.
    pub fn buffer(&self, buffer_id: usize) -> (r: Result<&Buffer, VeloError>)
        ensures
            buffer_id < self.buffers@.len() ==> (r matches Ok(b) && *b == self.buffers@[buffer_id as int]),
            buffer_id >= self.buffers@.len() ==> (r matches Err(e) && e is InvalidBufferId),
    {
        if buffer_id < self.buffers.len() {
            Ok(&self.buffers[buffer_id])
        } else {
            Err(VeloError::InvalidBufferId)
        }
    }

    /// Buffer `buffer_id`, to change it; `InvalidBufferId` when there is no
    /// such buffer.
    pub fn buffer_mut(&mut self, buffer_id: usize) -> (r: Result<&mut Buffer, VeloError>)
        ensures
            buffer_id < old(self).buffers@.len() ==> (r matches Ok(b)
                && *b == old(self).buffers@[buffer_id as int]
                && final(self).buffers@ == old(self).buffers@.update(buffer_id as int, *final(b))
                && final(self).active_buffer_id == old(self).active_buffer_id
                && final(self).same_setup(*old(self))),
            buffer_id >= old(self).buffers@.len() ==> (r matches Err(e) && e is InvalidBufferId
                && *final(self) == *old(self)),
    {
        if buffer_id < self.buffers.len() {
            Ok(&mut self.buffers[buffer_id])
        } else {
            Err(VeloError::InvalidBufferId)
        }
    }

    /// Makes buffer `buffer_id` the active one; `InvalidBufferId`, changing
    /// nothing, when there is no such buffer.
    pub fn set_active_buffer(&mut self, buffer_id: usize) -> (r: Result<(), VeloError>)
        ensures
            (final(self)@, r) == set_active_spec(old(self)@, buffer_id as nat),
            final(self).buffers == old(self).buffers,
            final(self).same_setup(*old(self)),
    {
        if buffer_id >= self.buffers.len() {
            return Err(VeloError::InvalidBufferId);
        }
        self.active_buffer_id = buffer_id;
        Ok(())
    }

    /// The number of open buffers.
    pub fn buffer_count(&self) -> (n: usize)
        ensures
            n == self.buffers@.len(),
    {
        self.buffers.len()
    }

    /// The active buffer, to change it; `NoBuffersOpen` when no buffer is
    /// open, and `InvalidBufferId` when the active id is out of range.
    pub fn active_buffer_mut(&mut self) -> (r: Result<&mut Buffer, VeloError>)
        ensures
            active_index(old(self)@) matches Ok(i) ==> (r matches Ok(b)
                && *b == old(self).buffers@[i as int]
                && final(self).buffers@ == old(self).buffers@.update(i as int, *final(b))
                && final(self).active_buffer_id == old(self).active_buffer_id
                && final(self).same_setup(*old(self))),
            active_index(old(self)@) matches Err(e) ==> (r == Err::<&mut Buffer, VeloError>(e)
                && *final(self) == *old(self)),
    {
        if self.buffers.len() == 0 {
            return Err(VeloError::NoBuffersOpen);
        }
        if self.active_buffer_id < self.buffers.len() {
            Ok(&mut self.buffers[self.active_buffer_id])
        } else {
            Err(VeloError::InvalidBufferId)
        }
    }
}

impl Default for EditorState {
    fn default() -> (s: Self)
        ensures
            s.buffers@.len() == 0,
            s.active_buffer_id == 0,
            s.config.is_default(),
            s.plugin_registry.count() == 0,
    {
        Self::new()
    }
}

} // verus!
