//! Decoding of raw input bytes into key events.

use vstd::prelude::*;

verus! {

/// The escape byte that starts a control sequence.
pub const ESC: u8 = 0x1b;

/// The bare quit key.
pub const QUIT_KEY: u8 = 0x71;

/// Control-Q, the other quit key.
pub const CTRL_QUIT_KEY: u8 = 0x11;

/// The key that leaves the welcome screen.
pub const EDIT_KEY: u8 = 0x65;

/// The byte that follows `ESC` in a control sequence.
pub const CSI_BYTE: u8 = 0x5b;

/// Which screen the editor shows.
#[derive(Clone, Copy, Debug, PartialEq, Eq, Structural)]
pub enum EditorMode {
    Welcome,
    Editing,
}

/// An arrow key.
#[derive(Clone, Copy, Debug, PartialEq, Eq, Structural)]
pub enum ArrowKey {
    Up,
    Down,
    Left,
    Right,
}

/// A decoded key event.
#[derive(Clone, Copy, Debug, PartialEq, Eq, Structural)]
pub enum InputEvent {
    Quit,
    EnterEdit,
    Arrow(ArrowKey),
    Other,
}

/// The byte that the control-modified key `c` sends.
pub open spec fn ctrl_of(c: u8) -> u8 {
    c & 0x1f
}

/// The byte sent by `c` pressed together with the control key.
pub fn ctrl_key(c: u8) -> (r: u8)
    ensures
        r == ctrl_of(c),
{
    c & 0x1f
}

/// Whether `b` asks to quit: bare `q` or control-Q.
pub open spec fn is_quit_byte(b: u8) -> bool {
    b == QUIT_KEY || b == CTRL_QUIT_KEY
}

/// Control-Q is the byte that `q` sends with the control key held.
pub proof fn lemma_ctrl_quit_key()
    ensures
        ctrl_of(QUIT_KEY) == CTRL_QUIT_KEY,
{
    assert(0x71u8 & 0x1f == 0x11u8) by (bit_vector);
}

/// The arrow key named by the final byte of an `ESC [` sequence.
pub open spec fn arrow_of(k: u8) -> Option<ArrowKey> {
    if k == 0x41 {
        Some(ArrowKey::Up)
    } else if k == 0x42 {
        Some(ArrowKey::Down)
    } else if k == 0x43 {
        Some(ArrowKey::Right)
    } else if k == 0x44 {
        Some(ArrowKey::Left)
    } else {
        None
    }
}

/// Maps the final byte of an `ESC [` sequence to its arrow key: `A` up,
/// `B` down, `C` right, `D` left.
pub fn arrow_key_pressed(k: u8) -> (r: Option<ArrowKey>)
    ensures
        r == arrow_of(k),
{
    if k == 0x41 {
        Some(ArrowKey::Up)
    } else if k == 0x42 {
        Some(ArrowKey::Down)
    } else if k == 0x43 {
        Some(ArrowKey::Right)
    } else if k == 0x44 {
        Some(ArrowKey::Left)
    } else {
        None
    }
}

/// Whether a first byte `b` read in `mode` starts an escape sequence whose
/// tail (up to three more bytes) must be read before decoding.
pub open spec fn wants_tail(mode: EditorMode, b: u8) -> bool {
    b == ESC && mode == EditorMode::Editing
}

/// Whether the tail of an escape sequence must be read after `first`.
pub fn reads_escape_tail(mode: EditorMode, first: u8) -> (r: bool)
    ensures
        r == wants_tail(mode, first),
{
    first == ESC && mode == EditorMode::Editing
}

/// The event that an escape tail decodes to: `[` followed by an arrow byte.
/// A short tail, from a read that timed out, decodes to `Other`.
pub open spec fn escape_event(tail: Seq<u8>) -> InputEvent {
    if tail.len() >= 2 && tail[0] == CSI_BYTE {
        match arrow_of(tail[1]) {
            Some(k) => InputEvent::Arrow(k),
            None => InputEvent::Other,
        }
    } else {
        InputEvent::Other
    }
}

/// The event decoded from the first byte read (`None` when the read timed
/// out) and, for an escape sequence, the bytes read after it.
pub open spec fn decoded_event(mode: EditorMode, first: Option<u8>, tail: Seq<u8>) -> InputEvent {
    match first {
        None => InputEvent::Other,
        Some(b) => if is_quit_byte(b) {
            InputEvent::Quit
        } else if wants_tail(mode, b) {
            escape_event(tail)
        } else if b == EDIT_KEY && mode == EditorMode::Welcome {
            InputEvent::EnterEdit
        } else {
            InputEvent::Other
        },
    }
}

/// Decodes one key event; unrecognised bytes are discarded as `Other`.
pub fn decode_event(mode: EditorMode, first: Option<u8>, tail: &[u8]) -> (r: InputEvent)
    ensures
        r == decoded_event(mode, first, tail@),
{
    match first {
        None => InputEvent::Other,
        Some(b) => {
            let ctrl_quit = ctrl_key(QUIT_KEY);
            proof {
                lemma_ctrl_quit_key();
            }
            if b == QUIT_KEY || b == ctrl_quit {
                InputEvent::Quit
            } else if reads_escape_tail(mode, b) {
                if tail.len() >= 2 && tail[0] == CSI_BYTE {
                    match arrow_key_pressed(tail[1]) {
                        Some(k) => InputEvent::Arrow(k),
                        None => InputEvent::Other,
                    }
                } else {
                    InputEvent::Other
                }
            } else if b == EDIT_KEY && mode == EditorMode::Welcome {
                InputEvent::EnterEdit
            } else {
                InputEvent::Other
            }
        },
    }
}

} // verus!
