use beer::editor::{CursorPosition, EditorState, COL_START_POS, ROW_START_POS};
use beer::input::{ArrowKey, EditorMode, InputEvent};
use beer::render::DrawCommand;
use beer::watcher::WindowSize;

fn doc(n: usize) -> Option<Vec<String>> {
    Some((0..n).map(|i| format!("line {i}")).collect())
}

fn size(columns: u16, rows: u16) -> WindowSize {
    WindowSize { columns, rows }
}

#[test]
fn scroll_scenario_80_by_24() {
    let mut e = EditorState::new(size(80, 24), doc(30));
    assert_eq!(e.cursor.row, 2);
    assert!(e.apply_event(InputEvent::Arrow(ArrowKey::Up)));
    assert_eq!(e.offset.row_offset, 0);
    assert_eq!(e.cursor.row, 2);
    for _ in 0..21 {
        e.apply_event(InputEvent::Arrow(ArrowKey::Down));
    }
    assert_eq!(e.cursor.row, 23);
    assert_eq!(e.offset.row_offset, 0);
    e.apply_event(InputEvent::Arrow(ArrowKey::Down));
    assert_eq!(e.offset.row_offset, 1);
    assert_eq!(e.cursor.row, 23);
}

#[test]
fn up_at_top_scrolls_back() {
    let mut e = EditorState::new(size(80, 24), doc(30));
    for _ in 0..25 {
        e.apply_event(InputEvent::Arrow(ArrowKey::Down));
    }
    assert_eq!(e.offset.row_offset, 4);
    for _ in 0..21 {
        e.apply_event(InputEvent::Arrow(ArrowKey::Up));
    }
    assert_eq!(e.cursor.row, 2);
    assert_eq!(e.offset.row_offset, 4);
    e.apply_event(InputEvent::Arrow(ArrowKey::Up));
    assert_eq!(e.cursor.row, 2);
    assert_eq!(e.offset.row_offset, 3);
}

#[test]
fn cursor_row_stays_in_bounds() {
    let mut e = EditorState::new(size(40, 10), doc(3));
    let keys = [ArrowKey::Down, ArrowKey::Up, ArrowKey::Down, ArrowKey::Down];
    for i in 0..200 {
        e.apply_event(InputEvent::Arrow(keys[(i * 7) % 4]));
        assert!(e.cursor.row >= ROW_START_POS && e.cursor.row <= 9);
    }
}

#[test]
fn horizontal_moves_are_clamped() {
    let mut e = EditorState::new(size(10, 10), doc(1));
    e.apply_event(InputEvent::Arrow(ArrowKey::Left));
    assert_eq!(e.cursor.column, COL_START_POS);
    for _ in 0..10 {
        e.apply_event(InputEvent::Arrow(ArrowKey::Right));
    }
    assert_eq!(e.cursor.column, 9);
    assert_eq!(e.offset.col_offset, 0);
}

#[test]
fn mode_transitions() {
    let mut e = EditorState::new(size(80, 24), None);
    assert_eq!(e.mode, EditorMode::Welcome);
    e.apply_event(InputEvent::Arrow(ArrowKey::Down));
    assert_eq!(e.cursor.row, 2);
    e.apply_event(InputEvent::EnterEdit);
    assert_eq!(e.mode, EditorMode::Editing);
    e.apply_event(InputEvent::EnterEdit);
    assert_eq!(e.mode, EditorMode::Editing);
    e.apply_event(InputEvent::Other);
    assert_eq!(e.mode, EditorMode::Editing);
    assert!(!e.apply_event(InputEvent::Quit));
    assert_eq!(e.mode, EditorMode::Editing);
    assert_eq!(EditorState::new(size(80, 24), doc(1)).mode, EditorMode::Editing);
}

#[test]
fn resize_clamps_cursor_and_resets_region() {
    let mut e = EditorState::new(size(80, 24), doc(30));
    for _ in 0..30 {
        e.apply_event(InputEvent::Arrow(ArrowKey::Down));
        e.apply_event(InputEvent::Arrow(ArrowKey::Right));
    }
    let cmds = e.apply_resize(size(20, 10));
    assert_eq!(e.cursor, CursorPosition { column: 19, row: 9 });
    assert_eq!(
        cmds,
        vec![DrawCommand::ResetScrollRegion, DrawCommand::SetScrollRegion { top: 2, bottom: 9 }]
    );
    assert_eq!(e.size, size(20, 10));
}

#[test]
fn resize_to_tiny_windows_sets_region_above_status_bar() {
    let mut e = EditorState::new(size(80, 24), doc(3));
    assert_eq!(
        e.apply_resize(size(80, 2)),
        vec![DrawCommand::ResetScrollRegion, DrawCommand::SetScrollRegion { top: 2, bottom: 1 }]
    );
    assert_eq!(
        e.apply_resize(size(80, 1)),
        vec![DrawCommand::ResetScrollRegion, DrawCommand::SetScrollRegion { top: 2, bottom: 0 }]
    );
    assert_eq!(e.cursor.row, ROW_START_POS);
}
