//! The terminal front end's key handling: a small state machine over the
//! text being typed, a status line, and the `C-x` chord prefix.

use vstd::prelude::*;
use crate::strs::{string_pop, string_push};

verus! {

/// Whether a `C-x` chord is in progress.
#[derive(Debug, Clone, Copy, PartialEq, Eq, Structural)]
pub enum SequenceState {
    Idle,
    AfterSuperX,
}

/// The key codes the terminal front end tells apart.
#[derive(Debug, Clone, Copy, PartialEq, Eq, Structural)]
pub enum KeyCode {
    Char(char),
    Enter,
    Backspace,
    Other,
}

/// A key press: its code, and whether Control was the one modifier held.
#[derive(Debug, Clone, Copy, PartialEq, Eq, Structural)]
pub struct KeyInput {
    pub control_only: bool,
    pub code: KeyCode,
}

/// What the terminal front end shows and remembers between key presses.
pub struct TuiState {
    pub buf: String,
    pub status: String,
    pub quit: bool,
    pub seq_state: SequenceState,
}

/// The terminal front end's state, as its transitions see it.
pub struct TuiView {
    pub buf: Seq<char>,
    pub status: Seq<char>,
    pub quit: bool,
    pub seq_state: SequenceState,
}

impl View for TuiState {
    type V = TuiView;

    open spec fn view(&self) -> TuiView {
        TuiView { buf: self.buf@, status: self.status@, quit: self.quit, seq_state: self.seq_state }
    }
}

pub open spec fn with_status(s: TuiView, status: Seq<char>) -> TuiView {
    TuiView { status, ..s }
}

/// One key press. When idle: `C-x` starts a chord; a char is typed and
/// named on the status line; Enter is named; Backspace is named and removes
/// the last typed char. After `C-x`: `C-g`, `C-s` and `C-f` end the chord
/// with their message, `C-c` asks to quit, and any other key ends the chord.
pub open spec fn key_step(s: TuiView, k: KeyInput) -> TuiView {
    match s.seq_state {
        SequenceState::Idle => if k.control_only && k.code == KeyCode::Char('x') {
            TuiView { status: "C-x"@, seq_state: SequenceState::AfterSuperX, ..s }
        } else {
            match k.code {
                KeyCode::Char(c) => TuiView {
                    status: "Pressed character: "@.push(c),
                    buf: s.buf.push(c),
                    ..s
                },
                KeyCode::Enter => with_status(s, "Enter pressed"@),
                KeyCode::Backspace => TuiView {
                    status: "Backspace pressed"@,
                    buf: if s.buf.len() > 0 {
                        s.buf.drop_last()
                    } else {
                        s.buf
                    },
                    ..s
                },
                KeyCode::Other => s,
            }
        },
        SequenceState::AfterSuperX => if k.control_only && k.code == KeyCode::Char('g') {
            TuiView { status: "C-x C-g"@, seq_state: SequenceState::Idle, ..s }
        } else if k.control_only && k.code == KeyCode::Char('s') {
            TuiView { status: "C-x C-s - file saved"@, seq_state: SequenceState::Idle, ..s }
        } else if k.control_only && k.code == KeyCode::Char('f') {
            TuiView { status: "C-x C-f - open file"@, seq_state: SequenceState::Idle, ..s }
        } else if k.control_only && k.code == KeyCode::Char('c') {
            TuiView { quit: true, ..s }
        } else {
            TuiView { seq_state: SequenceState::Idle, ..s }
        },
    }
}

/// The key is `C-` followed by `c`.
pub open spec fn is_control(k: KeyInput, c: char) -> bool {
    k.control_only && k.code == KeyCode::Char(c)
}

/// After `C-x`, the next key ends the chord, unless it is `C-c`, which asks
/// to quit instead. `C-g`, `C-s` and `C-f` put their message on the status
/// line, any other key leaves the status line as it was, and the typed text
/// never changes.
pub proof fn chord_second_key(s: TuiView, k: KeyInput)
    requires
        s.seq_state == SequenceState::AfterSuperX,
    ensures
        key_step(s, k).buf == s.buf,
        is_control(k, 'c') ==> key_step(s, k).quit && key_step(s, k).status == s.status,
        !is_control(k, 'c') ==> key_step(s, k).seq_state == SequenceState::Idle && key_step(s, k).quit
            == s.quit,
        is_control(k, 'g') ==> key_step(s, k).status == "C-x C-g"@,
        is_control(k, 's') ==> key_step(s, k).status == "C-x C-s - file saved"@,
        is_control(k, 'f') ==> key_step(s, k).status == "C-x C-f - open file"@,
        !is_control(k, 'g') && !is_control(k, 's') && !is_control(k, 'f') ==> key_step(s, k).status
            == s.status,
{
}

/// With no chord pending: `C-x` starts one and leaves the text alone; any
/// other key keeps none pending. A typed char is appended to the text and
/// named on the status line; Enter only names itself; Backspace names itself
/// and removes the last char, if any; any other key changes nothing. No key
/// changes whether to quit.
pub proof fn idle_key(s: TuiView, k: KeyInput)
    requires
        s.seq_state == SequenceState::Idle,
    ensures
        key_step(s, k).quit == s.quit,
        is_control(k, 'x') ==> key_step(s, k).seq_state == SequenceState::AfterSuperX
            && key_step(s, k).status == "C-x"@ && key_step(s, k).buf == s.buf,
        !is_control(k, 'x') ==> key_step(s, k).seq_state == SequenceState::Idle,
        k.code matches KeyCode::Char(c) ==> (!is_control(k, 'x') ==> key_step(s, k).buf == s.buf
            + seq![c] && key_step(s, k).status == "Pressed character: "@ + seq![c]),
        k.code is Enter ==> key_step(s, k).buf == s.buf && key_step(s, k).status == "Enter pressed"@,
        k.code is Backspace ==> key_step(s, k).status == "Backspace pressed"@ && (s.buf.len() > 0
            ==> key_step(s, k).buf == s.buf.subrange(0, s.buf.len() - 1)) && (s.buf.len() == 0
            ==> key_step(s, k).buf == s.buf),
        k.code is Other ==> key_step(s, k) == s,
{
    if let KeyCode::Char(c) = k.code {
        if !is_control(k, 'x') {
            assert(s.buf.push(c) =~= s.buf + seq![c]);
            assert("Pressed character: "@.push(c) =~= "Pressed character: "@ + seq![c]);
        }
    }
    if k.code is Backspace && s.buf.len() > 0 {
        assert(s.buf.drop_last() =~= s.buf.subrange(0, s.buf.len() - 1));
    }
}

/// After a pause of more than three seconds a pending chord is dropped: the
/// key acts as it would with no chord pending, on a status line reading
/// "None"; after a shorter pause the key acts as usual.
pub proof fn pause_drops_chord(s: TuiView, k: KeyInput)
    ensures
        key_after_pause(s, k, true) == key_step(
            TuiView { seq_state: SequenceState::Idle, status: "None"@, ..s },
            k,
        ),
        key_after_pause(s, k, false) == key_step(s, k),
        key_after_pause(s, k, true).quit == s.quit,
{
    idle_key(TuiView { seq_state: SequenceState::Idle, status: "None"@, ..s }, k);
}

/// A resize changes the status line alone.
pub proof fn resize_changes_only_status(s: TuiView, w: nat, h: nat)
    ensures
        with_status(s, resize_status(w, h)).buf == s.buf,
        with_status(s, resize_status(w, h)).quit == s.quit,
        with_status(s, resize_status(w, h)).seq_state == s.seq_state,
        with_status(s, resize_status(w, h)).status == "Window resized: "@ + decimal(w) + "x"@ + decimal(h),
{
}

/// A key press after a pause: a pause of more than three seconds first
/// abandons any chord and sets the status to "None".
pub open spec fn key_after_pause(s: TuiView, k: KeyInput, timed_out: bool) -> TuiView {
    let s1 = if timed_out {
        TuiView { seq_state: SequenceState::Idle, status: "None"@, ..s }
    } else {
        s
    };
    key_step(s1, k)
}

pub open spec fn digit_char(d: nat) -> char {
    if d == 0 {
        '0'
    } else if d == 1 {
        '1'
    } else if d == 2 {
        '2'
    } else if d == 3 {
        '3'
    } else if d == 4 {
        '4'
    } else if d == 5 {
        '5'
    } else if d == 6 {
        '6'
    } else if d == 7 {
        '7'
    } else if d == 8 {
        '8'
    } else {
        '9'
    }
}

/// The digit for `d` is the char `d` places after '0'; so `decimal` writes
/// the last digit of `n` last and the digits of `n / 10` before it.
pub proof fn digits_are_decimal(n: nat)
    ensures
        n < 10 ==> digit_char(n) as u32 == '0' as u32 + n,
        decimal(n).len() >= 1,
        decimal(n).last() as u32 == '0' as u32 + n % 10,
        n >= 10 ==> decimal(n).drop_last() == decimal(n / 10),
        n < 10 ==> decimal(n).len() == 1,
{
}

/// The decimal digits of `n`, most significant first, with no leading zero.
pub open spec fn decimal(n: nat) -> Seq<char>
    decreases n,
{
    if n < 10 {
        seq![digit_char(n)]
    } else {
        decimal(n / 10).push(digit_char(n % 10))
    }
}

fn digit(d: u16) -> (c: char)
    requires
        d < 10,
    ensures
        c == digit_char(d as nat),
{
    if d == 0 {
        '0'
    } else if d == 1 {
        '1'
    } else if d == 2 {
        '2'
    } else if d == 3 {
        '3'
    } else if d == 4 {
        '4'
    } else if d == 5 {
        '5'
    } else if d == 6 {
        '6'
    } else if d == 7 {
        '7'
    } else if d == 8 {
        '8'
    } else {
        '9'
    }
}

/// `n` written in decimal.
pub fn decimal_string(n: u16) -> (s: String)
    ensures
        s@ == decimal(n as nat),
    decreases n,
{
    if n < 10 {
        let mut s = String::new();
        string_push(&mut s, digit(n));
        s
    } else {
        let mut s = decimal_string(n / 10);
        string_push(&mut s, digit(n % 10));
        s
    }
}

/// The status line after the terminal was resized to `w` by `h`.
pub open spec fn resize_status(w: nat, h: nat) -> Seq<char> {
    "Window resized: "@ + decimal(w) + "x"@ + decimal(h)
}

/// A pending chord is dropped after a pause of more than three seconds.
pub const CHORD_TIMEOUT_NANOS: u128 = 3_000_000_000;

/// Whether a pause of `elapsed_nanos` nanoseconds since the last key press
/// is long enough to drop a pending chord: more than three seconds.
pub fn chord_timed_out(elapsed_nanos: u128) -> (b: bool)
    ensures
        b == (elapsed_nanos > CHORD_TIMEOUT_NANOS),
{
    elapsed_nanos > CHORD_TIMEOUT_NANOS
}

impl TuiState {
    /// The state the terminal front end starts in.
    pub fn new() -> (s: Self)
        ensures
            s@ == (TuiView {
                buf: "Hello Velo"@,
                status: "Welcome to Velo!"@,
                quit: false,
                seq_state: SequenceState::Idle,
            }),
    {
        Self {
            buf: String::from_str("Hello Velo"),
            status: String::from_str("Welcome to Velo!"),
            quit: false,
            seq_state: SequenceState::Idle,
        }
    }

    /// Handles a key press, after a pause of more than three seconds when
    /// `timed_out` holds.
    pub fn on_key(&mut self, key: KeyInput, timed_out: bool)
        ensures
            final(self)@ == key_after_pause(old(self)@, key, timed_out),
    {
        if timed_out {
            self.seq_state = SequenceState::Idle;
            self.status = String::from_str("None");
        }
        process_key_event(self, key);
    }

    /// Reports a new terminal size on the status line.
    pub fn on_resize(&mut self, w: u16, h: u16)
        ensures
            final(self)@ == with_status(old(self)@, resize_status(w as nat, h as nat)),
    {
        let status = String::from_str("Window resized: ").concat(decimal_string(w).as_str()).concat(
            "x",
        ).concat(decimal_string(h).as_str());
        self.status = status;
    }
}

/// Applies one key press to the terminal front end's state.
pub fn process_key_event(s: &mut TuiState, key: KeyInput)
    ensures
        final(s)@ == key_step(old(s)@, key),
{
    match s.seq_state {
        SequenceState::Idle => {
            if key.control_only && key.code == KeyCode::Char('x') {
                s.status = String::from_str("C-x");
                s.seq_state = SequenceState::AfterSuperX;
            } else {
                match key.code {
                    KeyCode::Char(c) => {
                        let mut status = String::from_str("Pressed character: ");
                        string_push(&mut status, c);
                        s.status = status;
                        string_push(&mut s.buf, c);
                    },
                    KeyCode::Enter => {
                        s.status = String::from_str("Enter pressed");
                    },
                    KeyCode::Backspace => {
                        s.status = String::from_str("Backspace pressed");
                        let _ = string_pop(&mut s.buf);
                    },
                    KeyCode::Other => {},
                }
            }
        },
        SequenceState::AfterSuperX => {
            if key.control_only && key.code == KeyCode::Char('g') {
                s.status = String::from_str("C-x C-g");
                s.seq_state = SequenceState::Idle;
            } else if key.control_only && key.code == KeyCode::Char('s') {
                s.status = String::from_str("C-x C-s - file saved");
                s.seq_state = SequenceState::Idle;
            } else if key.control_only && key.code == KeyCode::Char('f') {
                s.status = String::from_str("C-x C-f - open file");
                s.seq_state = SequenceState::Idle;
            } else if key.control_only && key.code == KeyCode::Char('c') {
                s.quit = true;
            } else {
                s.seq_state = SequenceState::Idle;
            }
        },
    }
}

} // verus!
