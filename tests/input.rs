use beer::input::{
    arrow_key_pressed, ctrl_key, decode_event, reads_escape_tail, ArrowKey, EditorMode,
    InputEvent,
};

const ESC: u8 = 0x1b;

fn decode_editing(bytes: &[u8]) -> InputEvent {
    let first = bytes.first().copied();
    decode_event(EditorMode::Editing, first, if bytes.is_empty() { &[] } else { &bytes[1..] })
}

#[test]
fn arrow_sequences_decode() {
    assert_eq!(decode_editing(&[ESC, b'[', b'A']), InputEvent::Arrow(ArrowKey::Up));
    assert_eq!(decode_editing(&[ESC, b'[', b'B']), InputEvent::Arrow(ArrowKey::Down));
    assert_eq!(decode_editing(&[ESC, b'[', b'C']), InputEvent::Arrow(ArrowKey::Right));
    assert_eq!(decode_editing(&[ESC, b'[', b'D']), InputEvent::Arrow(ArrowKey::Left));
    assert_eq!(decode_editing(&[ESC, b'[', b'Z']), InputEvent::Other);
    assert_eq!(decode_editing(&[ESC, b'O', b'A']), InputEvent::Other);
}

#[test]
fn lone_escape_and_timeouts_decode_to_other() {
    assert_eq!(decode_editing(&[ESC]), InputEvent::Other);
    assert_eq!(decode_editing(&[ESC, b'[']), InputEvent::Other);
    assert_eq!(decode_editing(&[]), InputEvent::Other);
}

#[test]
fn quit_keys() {
    assert_eq!(ctrl_key(b'q'), 0x11);
    assert_eq!(decode_event(EditorMode::Welcome, Some(b'q'), &[]), InputEvent::Quit);
    assert_eq!(decode_event(EditorMode::Editing, Some(0x11), &[]), InputEvent::Quit);
}

#[test]
fn edit_key_only_on_welcome() {
    assert_eq!(decode_event(EditorMode::Welcome, Some(b'e'), &[]), InputEvent::EnterEdit);
    assert_eq!(decode_event(EditorMode::Editing, Some(b'e'), &[]), InputEvent::Other);
    assert_eq!(decode_event(EditorMode::Welcome, Some(b'x'), &[]), InputEvent::Other);
}

#[test]
fn escape_ignored_on_welcome() {
    assert!(!reads_escape_tail(EditorMode::Welcome, ESC));
    assert!(reads_escape_tail(EditorMode::Editing, ESC));
    assert!(!reads_escape_tail(EditorMode::Editing, b'a'));
    assert_eq!(decode_event(EditorMode::Welcome, Some(ESC), &[b'[', b'A']), InputEvent::Other);
}

#[test]
fn arrow_table() {
    assert_eq!(arrow_key_pressed(b'A'), Some(ArrowKey::Up));
    assert_eq!(arrow_key_pressed(b'B'), Some(ArrowKey::Down));
    assert_eq!(arrow_key_pressed(b'C'), Some(ArrowKey::Right));
    assert_eq!(arrow_key_pressed(b'D'), Some(ArrowKey::Left));
    assert_eq!(arrow_key_pressed(b'E'), None);
}
