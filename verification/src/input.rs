//! How the application turns key presses into edits: the key names it
//! understands, the cursor movements, and the exit key.

use vstd::prelude::*;
use vstd::utf8::encode_utf8;
use crate::buffer::{Buffer, BufferView};
use crate::command::{
    delete_char_exec, insert_char_exec, only_views_change, with_buffer, with_cursor, Command,
    DeleteChar, InsertChar,
};
use crate::events::EditorEvent;
use crate::position::Position;
use crate::render_state::RenderState;
use crate::state::{active_index, EditorState, StateView};
use crate::strs::{has_prefix, has_suffix, str_ends_with, str_equal, str_starts_with};
use crate::text::{lemma_breaks_before_bound, line_count, line_start};

verus! {

/// The keys that the application acts on.
#[derive(Debug, Clone, Copy, PartialEq, Eq, Structural)]
pub enum KeyType {
    Left,
    Right,
    Up,
    Down,
    Backspace,
    Char(char),
}

/// The key that a key name stands for: "Left", "Right", "Up", "Down",
/// "Backspace", or "Char('c')" for a char `c`, which is taken from the
/// seventh char of the name.
pub open spec fn key_of_name(k: Seq<char>) -> Option<KeyType> {
    if k == "Left"@ {
        Some(KeyType::Left)
    } else if k == "Right"@ {
        Some(KeyType::Right)
    } else if k == "Up"@ {
        Some(KeyType::Up)
    } else if k == "Down"@ {
        Some(KeyType::Down)
    } else if k == "Backspace"@ {
        Some(KeyType::Backspace)
    } else if has_prefix(k, "Char('"@) && has_suffix(k, "')"@) {
        if k.len() > 6 {
            Some(KeyType::Char(k[6]))
        } else {
            None
        }
    } else {
        None
    }
}

/// The number of bytes of line `l` in UTF-8, its line break included; 0
/// past the last line.
pub open spec fn line_bytes(t: Seq<char>, l: nat) -> usize {
    if l < line_count(t) {
        encode_utf8(t.subrange(line_start(t, l), line_start(t, l + 1))).len() as usize
    } else {
        0
    }
}

/// Where Left takes the cursor: one column back, or from the start of a line
/// to the end of the line before, measured in bytes.
pub open spec fn left_of(b: BufferView) -> Position {
    let c = b.cursor;
    if c.column > 0 {
        Position { line: c.line, column: (c.column - 1) as usize }
    } else if c.line > 0 {
        Position { line: (c.line - 1) as usize, column: line_bytes(b.text, (c.line - 1) as nat) }
    } else {
        c
    }
}

/// Where Right takes the cursor: one column on within the line's bytes, or
/// to the start of the next line.
pub open spec fn right_of(b: BufferView) -> Position {
    let c = b.cursor;
    if c.column < line_bytes(b.text, c.line as nat) {
        Position { line: c.line, column: (c.column + 1) as usize }
    } else if c.line + 1 < line_count(b.text) {
        Position { line: (c.line + 1) as usize, column: 0 }
    } else {
        c
    }
}

pub open spec fn min_usize(a: usize, b: usize) -> usize {
    if a <= b {
        a
    } else {
        b
    }
}

/// Where Up takes the cursor: the line before, the column kept within that
/// line's bytes.
pub open spec fn up_of(b: BufferView) -> Position {
    let c = b.cursor;
    if c.line > 0 {
        Position {
            line: (c.line - 1) as usize,
            column: min_usize(c.column, line_bytes(b.text, (c.line - 1) as nat)),
        }
    } else {
        c
    }
}

/// Where Down takes the cursor: the line after, the column kept within that
/// line's bytes.
pub open spec fn down_of(b: BufferView) -> Position {
    let c = b.cursor;
    if c.line + 1 < line_count(b.text) {
        Position {
            line: (c.line + 1) as usize,
            column: min_usize(c.column, line_bytes(b.text, (c.line + 1) as nat)),
        }
    } else {
        c
    }
}

/// The state after a key: a char is inserted as `InsertChar` does;
/// Backspace moves left and then deletes as `DeleteChar` does; the arrows
/// move the cursor. Without an active buffer only a char is tried, and it
/// changes nothing.
pub open spec fn key_effect(v: StateView, k: KeyType) -> StateView {
    match k {
        KeyType::Char(ch) => insert_char_exec(v, ch).0,
        _ => match active_index(v) {
            Err(_) => v,
            Ok(i) => {
                let b = v.buffers[i as int];
                match k {
                    KeyType::Backspace => delete_char_exec(
                        with_buffer(v, i, with_cursor(b, left_of(b))),
                    ).0,
                    KeyType::Left => with_buffer(v, i, with_cursor(b, left_of(b))),
                    KeyType::Right => with_buffer(v, i, with_cursor(b, right_of(b))),
                    KeyType::Up => with_buffer(v, i, with_cursor(b, up_of(b))),
                    _ => with_buffer(v, i, with_cursor(b, down_of(b))),
                }
            },
        },
    }
}

/// The key names: "Left", "Right", "Up", "Down" and "Backspace" name
/// those keys and nothing else does, and "Char('c')" names the char `c`.
pub proof fn key_names(k: Seq<char>, c: char)
    ensures
        key_of_name(k) == Some(KeyType::Left) <==> k == "Left"@,
        key_of_name(k) == Some(KeyType::Right) <==> k == "Right"@,
        key_of_name(k) == Some(KeyType::Up) <==> k == "Up"@,
        key_of_name(k) == Some(KeyType::Down) <==> k == "Down"@,
        key_of_name(k) == Some(KeyType::Backspace) <==> k == "Backspace"@,
        key_of_name("Char('"@ + seq![c] + "')"@) == Some(KeyType::Char(c)),
{
    reveal_strlit("Left");
    reveal_strlit("Right");
    reveal_strlit("Up");
    reveal_strlit("Down");
    reveal_strlit("Backspace");
    reveal_strlit("Char('");
    reveal_strlit("')");
    assert("Up"@ != "Left"@ && "Up"@ != "Right"@) by {
        assert("Up"@.len() == 2 && "Left"@.len() == 4 && "Right"@.len() == 5);
    }
    assert("Down"@ != "Left"@ && "Down"@ != "Right"@ && "Down"@ != "Up"@) by {
        assert("Down"@[0] == 'D' && "Left"@[0] == 'L' && "Right"@.len() == 5 && "Up"@.len() == 2);
    }
    assert("Backspace"@ != "Left"@ && "Backspace"@ != "Right"@ && "Backspace"@ != "Up"@
        && "Backspace"@ != "Down"@) by {
        assert("Backspace"@.len() == 9 && "Down"@.len() == 4);
    }
    let name = "Char('"@ + seq![c] + "')"@;
    assert(name.len() == 9);
    assert(name[6] == c);
    assert(name.subrange(0, 6) =~= "Char('"@);
    assert(name.subrange(7, 9) =~= "')"@);
    assert(name != "Left"@ && name != "Right"@ && name != "Up"@ && name != "Down"@ && name
        != "Backspace"@) by {
        assert(name[0] == 'C' && "Backspace"@[0] == 'B' && "Down"@.len() == 4);
    }
}

/// An arrow key moves only the active buffer's cursor: that buffer's text,
/// file, dirty flag and selections, every other buffer, and the active id
/// stay as they were.
pub proof fn arrow_moves_only_the_cursor(v: StateView, k: KeyType)
    requires
        k is Left || k is Right || k is Up || k is Down,
        active_index(v) is Ok,
    ensures
        key_effect(v, k).active == v.active,
        key_effect(v, k).buffers.len() == v.buffers.len(),
        forall|j: int|
            0 <= j < v.buffers.len() && j != v.active ==> key_effect(v, k).buffers[j]
                == v.buffers[j],
        key_effect(v, k).buffers[v.active as int] == (BufferView {
            cursor: key_effect(v, k).buffers[v.active as int].cursor,
            ..v.buffers[v.active as int]
        }),
{
}

/// Right: one column on while the cursor is inside its line's bytes; from
/// the end of a line to the start of the next; at the end of the last line
/// it stays (for a text whose length, as every buffer's, fits a `usize`).
pub proof fn right_arrow_moves(v: StateView)
    requires
        active_index(v) is Ok,
        v.buffers[v.active as int].text.len() <= usize::MAX,
    ensures
        ({
            let b = v.buffers[v.active as int];
            let c = b.cursor;
            let c1 = key_effect(v, KeyType::Right).buffers[v.active as int].cursor;
            &&& c.column < line_bytes(b.text, c.line as nat) ==> c1.line == c.line && c1.column
                == c.column + 1
            &&& c.column >= line_bytes(b.text, c.line as nat) && c.line + 1 < line_count(b.text)
                ==> c1.line == c.line + 1 && c1.column == 0
            &&& c.column >= line_bytes(b.text, c.line as nat) && c.line + 1 >= line_count(b.text)
                ==> c1 == c
        }),
{
    let t = v.buffers[v.active as int].text;
    lemma_breaks_before_bound(t, t.len() as int);
}

/// Left: one column back when not at the start of a line; from the start of
/// a line to the end of the line before, measured in bytes; at the very
/// start it stays.
pub proof fn left_arrow_moves(v: StateView)
    requires
        active_index(v) is Ok,
    ensures
        ({
            let b = v.buffers[v.active as int];
            let c = b.cursor;
            let c1 = key_effect(v, KeyType::Left).buffers[v.active as int].cursor;
            &&& c.column > 0 ==> c1.line == c.line && c1.column == c.column - 1
            &&& c.column == 0 && c.line > 0 ==> c1.line == c.line - 1 && c1.column == line_bytes(
                b.text,
                (c.line - 1) as nat,
            )
            &&& c.column == 0 && c.line == 0 ==> c1 == c
        }),
{
}

/// Up: to the line before, keeping the column unless that line has fewer
/// bytes, where it goes to the line's end; on the first line it stays.
pub proof fn up_arrow_moves(v: StateView)
    requires
        active_index(v) is Ok,
    ensures
        ({
            let b = v.buffers[v.active as int];
            let c = b.cursor;
            let c1 = key_effect(v, KeyType::Up).buffers[v.active as int].cursor;
            &&& c.line > 0 ==> c1.line == c.line - 1 && (c.column <= line_bytes(
                b.text,
                (c.line - 1) as nat,
            ) ==> c1.column == c.column) && (c.column > line_bytes(b.text, (c.line - 1) as nat)
                ==> c1.column == line_bytes(b.text, (c.line - 1) as nat))
            &&& c.line == 0 ==> c1 == c
        }),
{
}

/// Down: to the line after, keeping the column unless that line has fewer
/// bytes, where it goes to the line's end; on the last line it stays (for a
/// text whose length, as every buffer's, fits a `usize`).
pub proof fn down_arrow_moves(v: StateView)
    requires
        active_index(v) is Ok,
        v.buffers[v.active as int].text.len() <= usize::MAX,
    ensures
        ({
            let b = v.buffers[v.active as int];
            let c = b.cursor;
            let c1 = key_effect(v, KeyType::Down).buffers[v.active as int].cursor;
            &&& c.line + 1 < line_count(b.text) ==> c1.line == c.line + 1 && (c.column <= line_bytes(
                b.text,
                (c.line + 1) as nat,
            ) ==> c1.column == c.column) && (c.column > line_bytes(b.text, (c.line + 1) as nat)
                ==> c1.column == line_bytes(b.text, (c.line + 1) as nat))
            &&& c.line + 1 >= line_count(b.text) ==> c1 == c
        }),
{
    let t = v.buffers[v.active as int].text;
    lemma_breaks_before_bound(t, t.len() as int);
}

/// A char key inserts the char as `InsertChar` does; Backspace moves the
/// cursor left and deletes the char there as `DeleteChar` does; with no
/// active buffer, no key changes anything.
pub proof fn edit_keys(v: StateView, k: KeyType)
    ensures
        k matches KeyType::Char(ch) ==> key_effect(v, k) == insert_char_exec(v, ch).0,
        k is Backspace && active_index(v) is Ok ==> key_effect(v, k) == delete_char_exec(
            with_buffer(
                v,
                v.active,
                with_cursor(v.buffers[v.active as int], left_of(v.buffers[v.active as int])),
            ),
        ).0,
        active_index(v) is Err ==> key_effect(v, k) == v,
{
}

/// The key that a key name reported by the terminal stands for, if any.
pub fn parse_key_from_str(key: &str) -> (r: Option<KeyType>)
    ensures
        r == key_of_name(key@),
{
    if str_equal(key, "Left") {
        Some(KeyType::Left)
    } else if str_equal(key, "Right") {
        Some(KeyType::Right)
    } else if str_equal(key, "Up") {
        Some(KeyType::Up)
    } else if str_equal(key, "Down") {
        Some(KeyType::Down)
    } else if str_equal(key, "Backspace") {
        Some(KeyType::Backspace)
    } else if str_starts_with(key, "Char('") && str_ends_with(key, "')") {
        if key.unicode_len() > 6 {
            Some(KeyType::Char(key.get_char(6)))
        } else {
            None
        }
    } else {
        None
    }
}

fn line_byte_len(buf: &Buffer, line: usize) -> (n: usize)
    ensures
        n == line_bytes(buf@.text, line as nat),
{
    match buf.line(line) {
        Some(s) => s.as_str().len(),
        None => 0,
    }
}

fn cursor_left(buf: &Buffer) -> (p: Position)
    ensures
        p == left_of(buf@),
{
    let c = buf.cursor;
    if c.column > 0 {
        Position::new(c.line, c.column - 1)
    } else if c.line > 0 {
        let prev_line = c.line - 1;
        Position::new(prev_line, line_byte_len(buf, prev_line))
    } else {
        c
    }
}

fn cursor_right(buf: &Buffer) -> (p: Position)
    ensures
        p == right_of(buf@),
{
    let c = buf.cursor;
    let line_len = line_byte_len(buf, c.line);
    if c.column < line_len {
        Position::new(c.line, c.column + 1)
    } else if c.line < buf.line_count() - 1 {
        Position::new(c.line + 1, 0)
    } else {
        c
    }
}

fn cursor_up(buf: &Buffer) -> (p: Position)
    ensures
        p == up_of(buf@),
{
    let c = buf.cursor;
    if c.line > 0 {
        let new_line = c.line - 1;
        let line_len = line_byte_len(buf, new_line);
        let column = if c.column <= line_len {
            c.column
        } else {
            line_len
        };
        Position::new(new_line, column)
    } else {
        c
    }
}

fn cursor_down(buf: &Buffer) -> (p: Position)
    ensures
        p == down_of(buf@),
{
    let c = buf.cursor;
    if c.line < buf.line_count() - 1 {
        let new_line = c.line + 1;
        let line_len = line_byte_len(buf, new_line);
        let column = if c.column <= line_len {
            c.column
        } else {
            line_len
        };
        Position::new(new_line, column)
    } else {
        c
    }
}

/// Applies a key to the editor state; a failed edit is ignored, as a key
/// press has no one to report it to.
pub fn apply_key(state: &mut EditorState, key: KeyType)
    ensures
        final(state)@ == key_effect(old(state)@, key),
        only_views_change(*old(state), *final(state)),
{
    match key {
        KeyType::Char(ch) => {
            let mut cmd = InsertChar::new(ch);
            let _ = cmd.execute(state);
        },
        KeyType::Backspace => {
            let ghost s0 = state@;
            match state.active_buffer_mut() {
                Ok(buf) => {
                    buf.cursor = cursor_left(buf);
                },
                Err(_) => {
                    proof {
                        assert(state@ == s0);
                    }
                    return ;
                },
            }
            proof {
                assert(state@.buffers =~= with_buffer(
                    s0,
                    s0.active,
                    with_cursor(s0.buffers[s0.active as int], left_of(s0.buffers[s0.active as int])),
                ).buffers);
            }
            let mut cmd = DeleteChar::new();
            let _ = cmd.execute(state);
        },
        _ => {
            let ghost s0 = state@;
            match state.active_buffer_mut() {
                Ok(buf) => {
                    let p = match key {
                        KeyType::Left => cursor_left(buf),
                        KeyType::Right => cursor_right(buf),
                        KeyType::Up => cursor_up(buf),
                        _ => cursor_down(buf),
                    };
                    buf.cursor = p;
                },
                Err(_) => {},
            }
            proof {
                if active_index(s0) is Ok {
                    assert(state@.buffers =~= key_effect(s0, key).buffers);
                }
            }
        },
    }
}

/// One event from the user interface: the state after it, and whether to
/// keep running. The exit key ends the session and changes nothing; a key
/// the application knows is applied; anything else changes nothing.
pub open spec fn input_step(v: StateView, exit_key: Seq<char>, e: EditorEvent) -> (StateView, bool) {
    match e {
        EditorEvent::KeyPressed { key, .. } => if key@ == exit_key {
            (v, false)
        } else {
            (
                match key_of_name(key@) {
                    Some(k) => key_effect(v, k),
                    None => v,
                },
                true,
            )
        },
        _ => (v, true),
    }
}

/// Events handled in order until one ends the session: the state after
/// them, and how many were received, the one that ended the session
/// included.
pub open spec fn run_events(v: StateView, exit_key: Seq<char>, events: Seq<EditorEvent>) -> (
    StateView,
    nat,
)
    decreases events.len(),
{
    if events.len() == 0 {
        (v, 0)
    } else {
        let (v1, keep) = input_step(v, exit_key, events[0]);
        if !keep {
            (v1, 1)
        } else {
            let (v2, n) = run_events(v1, exit_key, events.drop_first());
            (v2, n + 1)
        }
    }
}

/// The event is a press of the exit key.
pub open spec fn is_exit(e: EditorEvent, exit_key: Seq<char>) -> bool {
    e matches EditorEvent::KeyPressed { key, .. } && key@ == exit_key
}

/// The exit key ends the session: when event `k` is the first press of the
/// exit key, exactly the events up to it are received, and the state ends as
/// the events before it leave it.
pub proof fn exit_key_stops(v: StateView, exit_key: Seq<char>, events: Seq<EditorEvent>, k: int)
    requires
        0 <= k < events.len(),
        is_exit(events[k], exit_key),
        forall|j: int| 0 <= j < k ==> !is_exit(#[trigger] events[j], exit_key),
    ensures
        run_events(v, exit_key, events) == (run_events(v, exit_key, events.take(k)).0, (k + 1) as nat),
        run_events(v, exit_key, events.take(k)).1 == k,
    decreases k,
{
    if k > 0 {
        let (v1, keep) = input_step(v, exit_key, events[0]);
        assert(!is_exit(events[0], exit_key));
        let rest = events.drop_first();
        assert forall|j: int| 0 <= j < k - 1 implies !is_exit(#[trigger] rest[j], exit_key) by {
            assert(rest[j] == events[j + 1]);
        }
        assert(rest[k - 1] == events[k]);
        exit_key_stops(v1, exit_key, rest, k - 1);
        assert(events.take(k).drop_first() =~= rest.take(k - 1));
        assert(events.take(k)[0] == events[0]);
    }
}

/// Without a press of the exit key, every event is received and handled in
/// order.
pub proof fn all_events_received(v: StateView, exit_key: Seq<char>, events: Seq<EditorEvent>)
    requires
        forall|j: int| 0 <= j < events.len() ==> !is_exit(#[trigger] events[j], exit_key),
    ensures
        run_events(v, exit_key, events).1 == events.len(),
    decreases events.len(),
{
    if events.len() > 0 {
        let (v1, keep) = input_step(v, exit_key, events[0]);
        assert(!is_exit(events[0], exit_key));
        let rest = events.drop_first();
        assert forall|j: int| 0 <= j < rest.len() implies !is_exit(#[trigger] rest[j], exit_key) by {
            assert(rest[j] == events[j + 1]);
        }
        all_events_received(v1, exit_key, rest);
    }
}

/// The key that ends the session unless another is chosen: "Ctrl+Q".
pub fn default_exit_key() -> (k: String)
    ensures
        k@ == "Ctrl+Q"@,
{
    String::from_str("Ctrl+Q")
}

/// Handles one event from the user interface: the exit key ends the session
/// (the answer is `false`); a key the application knows is applied; anything
/// else changes nothing. The answer is whether to keep running.
pub fn apply_input(state: &mut EditorState, exit_key: &str, event: &EditorEvent) -> (keep_running: bool)
    ensures
        (final(state)@, keep_running) == input_step(old(state)@, exit_key@, *event),
        only_views_change(*old(state), *final(state)),
{
    match event {
        EditorEvent::KeyPressed { key, .. } => {
            if str_equal(key.as_str(), exit_key) {
                return false;
            }
            match parse_key_from_str(key.as_str()) {
                Some(k) => apply_key(state, k),
                None => {},
            }
            true
        },
        _ => true,
    }
}

/// One turn of the application: handles the event, and answers with the
/// snapshot to publish of the state after it, or with `None` when the event
/// ends the session (the state then unchanged).
pub fn handle_event(state: &mut EditorState, exit_key: &str, event: &EditorEvent) -> (snapshot: Option<RenderState>)
    ensures
        (final(state)@, snapshot is Some) == input_step(old(state)@, exit_key@, *event),
        snapshot matches Some(r) ==> r.snapshot_of(*final(state)),
        only_views_change(*old(state), *final(state)),
{
    if !apply_input(state, exit_key, event) {
        return None;
    }
    Some(RenderState::from_state(state))
}

} // verus!
