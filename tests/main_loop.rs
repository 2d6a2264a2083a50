use beer::editor::EditorState;
use beer::input::{ArrowKey, InputEvent};
use beer::main_loop::{LoopState, MainLoop};
use beer::render::DrawCommand;
use beer::watcher::WindowSize;

fn running_loop(doc: bool) -> MainLoop {
    let size = WindowSize { columns: 80, rows: 24 };
    let document = if doc { Some(vec!["hello".to_string()]) } else { None };
    MainLoop::new(EditorState::new(size, document), "notes.txt".to_string())
}

#[test]
fn quit_stops_after_one_tick_welcome() {
    let mut m = running_loop(false);
    let f = m.tick(None, InputEvent::Other);
    assert!(f.len() > 1);
    let f = m.tick(None, InputEvent::Quit);
    assert_eq!(m.state, LoopState::Stopped);
    assert_eq!(f, vec![DrawCommand::ClearScreen]);
    assert!(m.tick(None, InputEvent::Other).is_empty());
    assert!(!m.is_running());
}

#[test]
fn quit_stops_while_editing_with_resize() {
    let mut m = running_loop(true);
    m.tick(None, InputEvent::Arrow(ArrowKey::Down));
    let f = m.tick(Some(WindowSize { columns: 60, rows: 20 }), InputEvent::Quit);
    assert_eq!(m.state, LoopState::Stopped);
    assert_eq!(
        f,
        vec![
            DrawCommand::ClearScreen,
            DrawCommand::ResetScrollRegion,
            DrawCommand::SetScrollRegion { top: 2, bottom: 19 }
        ]
    );
}

#[test]
fn running_tick_renders_state() {
    let mut m = running_loop(true);
    let f = m.tick(None, InputEvent::Arrow(ArrowKey::Down));
    assert!(m.is_running());
    assert_eq!(f[0], DrawCommand::ClearScreen);
    assert_eq!(f[f.len() - 1], DrawCommand::MoveTo { column: 6, row: 3 });
    assert!(f.contains(&DrawCommand::Text("hello".to_string())));
}

#[test]
fn setup_and_teardown_commands() {
    let m = running_loop(false);
    assert_eq!(
        m.enter_commands(),
        vec![DrawCommand::EnterAlternateScreen, DrawCommand::SetScrollRegion { top: 2, bottom: 23 }]
    );
    assert_eq!(
        MainLoop::leave_commands(),
        vec![DrawCommand::ResetScrollRegion, DrawCommand::LeaveAlternateScreen]
    );
}
