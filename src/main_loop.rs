//! One tick of the fixed-rate main loop, without the waiting: size change,
//! key event, state update, frame.

use vstd::prelude::*;
use crate::editor::{region_bottom, resized, stepped, EditorState, ROW_START_POS};
use crate::input::InputEvent;
use crate::render::{frame_of, render, DrawCommand};
use crate::watcher::WindowSize;

verus! {

/// Whether the loop still runs.
#[derive(Clone, Copy, Debug, PartialEq, Eq, Structural)]
pub enum LoopState {
    Running,
    Stopped,
}

/// The commands that a window-size change contributes to a frame.
pub open spec fn resize_frame(resize: Option<WindowSize>) -> Seq<DrawCommand> {
    match resize {
        Some(size) => seq![
            DrawCommand::ResetScrollRegion,
            DrawCommand::SetScrollRegion { top: ROW_START_POS, bottom: region_bottom(size.rows) },
        ],
        None => Seq::empty(),
    }
}

/// The editor state after the size change of a tick, if any.
pub open spec fn after_resize(s: EditorState, resize: Option<WindowSize>) -> EditorState {
    match resize {
        Some(size) => resized(s, size),
        None => s,
    }
}

/// The main loop: the editor, the file name shown in the status bar, and
/// whether it still runs.
pub struct MainLoop {
    pub editor: EditorState,
    pub file_name: String,
    pub state: LoopState,
}

impl MainLoop {
    /// A running loop over `editor`.
    pub fn new(editor: EditorState, file_name: String) -> (r: MainLoop)
        ensures
            r.editor == editor,
            r.file_name == file_name,
            r.state == LoopState::Running,
    {
        MainLoop { editor, file_name, state: LoopState::Running }
    }

    /// Whether the loop still runs.
    pub fn is_running(&self) -> (r: bool)
        ensures
            r == (self.state == LoopState::Running),
    {
        self.state == LoopState::Running
    }

    /// What is drawn once raw mode is entered: switch to the alternate screen
    /// and pin the header and status rows outside the scrollable region.
    pub fn enter_commands(&self) -> (cmds: Vec<DrawCommand>)
        requires
            self.editor.wf(),
        ensures
            cmds@ == seq![
                DrawCommand::EnterAlternateScreen,
                DrawCommand::SetScrollRegion {
                    top: ROW_START_POS,
                    bottom: region_bottom(self.editor.size.rows),
                },
            ],
    {
        let bottom: u16 = self.editor.size.rows - 1;
        let mut cmds: Vec<DrawCommand> = Vec::new();
        cmds.push(DrawCommand::EnterAlternateScreen);
        cmds.push(DrawCommand::SetScrollRegion { top: ROW_START_POS, bottom });
        cmds
    }

    /// What is drawn on the way out, whatever ended the loop: reset the
    /// scrollable region and leave the alternate screen.
    pub fn leave_commands() -> (cmds: Vec<DrawCommand>)
        ensures
            cmds@ == seq![DrawCommand::ResetScrollRegion, DrawCommand::LeaveAlternateScreen],
    {
        let mut cmds: Vec<DrawCommand> = Vec::new();
        cmds.push(DrawCommand::ResetScrollRegion);
        cmds.push(DrawCommand::LeaveAlternateScreen);
        cmds
    }

    /// One tick: clear the screen, take the pending size change if any, apply
    /// the decoded event, and draw the frame. `Quit` stops the loop and
    /// nothing is drawn for the state after it; a stopped loop draws nothing
    /// and changes nothing.
    pub fn tick(&mut self, resize: Option<WindowSize>, ev: InputEvent) -> (frame: Vec<DrawCommand>)
        requires
            old(self).editor.wf(),
            resize matches Some(size) ==> size.wf(),
        ensures
            final(self).editor.wf(),
            final(self).file_name == old(self).file_name,
            old(self).state == LoopState::Stopped ==> *final(self) == *old(self) && frame@.len()
                == 0,
            old(self).state == LoopState::Running ==> {
                let s = stepped(after_resize(old(self).editor, resize), ev);
                &&& final(self).editor == s
                &&& final(self).state == (if ev == InputEvent::Quit {
                    LoopState::Stopped
                } else {
                    LoopState::Running
                })
                &&& frame@ == seq![DrawCommand::ClearScreen] + resize_frame(resize) + (if ev
                    == InputEvent::Quit {
                    Seq::empty()
                } else {
                    frame_of(s, old(self).file_name)
                })
            },
    {
        let mut frame: Vec<DrawCommand> = Vec::new();
        if self.state == LoopState::Stopped {
            return frame;
        }
        frame.push(DrawCommand::ClearScreen);
        if let Some(size) = resize {
            let mut cmds = self.editor.apply_resize(size);
            frame.append(&mut cmds);
        }
        let running = self.editor.apply_event(ev);
        if !running {
            self.state = LoopState::Stopped;
            assert(frame@ =~= seq![DrawCommand::ClearScreen] + resize_frame(resize) + Seq::<
                DrawCommand,
            >::empty());
            return frame;
        }
        let mut drawn = render(&self.editor, &self.file_name);
        frame.append(&mut drawn);
        frame
    }
}

} // verus!
