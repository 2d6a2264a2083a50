//! Editor state: cursor, viewport, document and mode, and how key events and
//! window-size changes move them.

use vstd::prelude::*;
use crate::input::{ArrowKey, EditorMode, InputEvent};
use crate::render::DrawCommand;
use crate::watcher::WindowSize;

verus! {

/// First screen row that shows document text (1-based).
pub const ROW_START_POS: u16 = 2;

/// First screen column that shows document text (1-based).
pub const COL_START_POS: u16 = 6;

/// Cursor position on screen, 1-based.
#[derive(Clone, Copy, Debug, PartialEq, Eq, Structural)]
pub struct CursorPosition {
    pub column: u16,
    pub row: u16,
}

/// Index of the first visible document line and column.
#[derive(Clone, Copy, Debug, PartialEq, Eq, Structural)]
pub struct ViewportOffset {
    pub row_offset: usize,
    pub col_offset: usize,
}

/// Last screen row of the text area: the row above the status bar, or the
/// first text row when the window is too short to hold more.
pub open spec fn bottom_row(rows: u16) -> u16 {
    if rows > ROW_START_POS {
        (rows - 1) as u16
    } else {
        ROW_START_POS
    }
}

/// Last screen column of the text area.
pub open spec fn right_column(columns: u16) -> u16 {
    if columns > COL_START_POS {
        (columns - 1) as u16
    } else {
        COL_START_POS
    }
}

/// Number of screen rows that show document text: all rows but the header
/// row and the status bar, none when the window has no room for them.
pub open spec fn visible_rows(rows: u16) -> int {
    if rows > ROW_START_POS {
        rows - ROW_START_POS
    } else {
        0
    }
}

/// Last row of the scrollable region of a window with `rows` rows: the row
/// above the status bar.
pub open spec fn region_bottom(rows: u16) -> u16 {
    (rows - 1) as u16
}

/// Whether `c` lies inside the text area of a window of size `size`.
pub open spec fn cursor_in_bounds(c: CursorPosition, size: WindowSize) -> bool {
    &&& ROW_START_POS <= c.row <= bottom_row(size.rows)
    &&& COL_START_POS <= c.column <= right_column(size.columns)
}

/// The cursor and viewport after one arrow key. Up and Down move the cursor
/// row and scroll once it stands on the first or last text row; scrolling
/// down is not bounded by the document length, and the offset only stops at
/// the largest `usize`. Left and Right stay within the text columns.
pub open spec fn arrow_step(
    c: CursorPosition,
    o: ViewportOffset,
    size: WindowSize,
    k: ArrowKey,
) -> (CursorPosition, ViewportOffset) {
    match k {
        ArrowKey::Up => if c.row == ROW_START_POS && o.row_offset > 0 {
            (c, ViewportOffset { row_offset: (o.row_offset - 1) as usize, ..o })
        } else if c.row != ROW_START_POS {
            (CursorPosition { row: (c.row - 1) as u16, ..c }, o)
        } else {
            (c, o)
        },
        ArrowKey::Down => if c.row >= bottom_row(size.rows) {
            if o.row_offset < usize::MAX {
                (c, ViewportOffset { row_offset: (o.row_offset + 1) as usize, ..o })
            } else {
                (c, o)
            }
        } else {
            (CursorPosition { row: (c.row + 1) as u16, ..c }, o)
        },
        ArrowKey::Left => if c.column != COL_START_POS {
            (CursorPosition { column: (c.column - 1) as u16, ..c }, o)
        } else {
            (c, o)
        },
        ArrowKey::Right => if c.column < right_column(size.columns) {
            (CursorPosition { column: (c.column + 1) as u16, ..c }, o)
        } else {
            (c, o)
        },
    }
}

/// The mode after an event: only `EnterEdit` changes it, and only from the
/// welcome screen.
pub open spec fn mode_after(mode: EditorMode, ev: InputEvent) -> EditorMode {
    if ev == InputEvent::EnterEdit {
        EditorMode::Editing
    } else {
        mode
    }
}

/// The cursor and viewport after an event in `mode`: arrows move them while
/// editing, nothing else does.
pub open spec fn event_step(
    c: CursorPosition,
    o: ViewportOffset,
    size: WindowSize,
    mode: EditorMode,
    ev: InputEvent,
) -> (CursorPosition, ViewportOffset) {
    match ev {
        InputEvent::Arrow(k) => if mode == EditorMode::Editing {
            arrow_step(c, o, size, k)
        } else {
            (c, o)
        },
        _ => (c, o),
    }
}

/// The cursor kept inside the text area of a window of size `size`.
pub open spec fn clamped_cursor(c: CursorPosition, size: WindowSize) -> CursorPosition {
    CursorPosition {
        column: if c.column > right_column(size.columns) {
            right_column(size.columns)
        } else {
            c.column
        },
        row: if c.row > bottom_row(size.rows) {
            bottom_row(size.rows)
        } else {
            c.row
        },
    }
}

/// The state after a window-size change to `size`.
pub open spec fn resized(s: EditorState, size: WindowSize) -> EditorState {
    EditorState { size, cursor: clamped_cursor(s.cursor, size), ..s }
}

/// The state after one decoded event.
pub open spec fn stepped(s: EditorState, ev: InputEvent) -> EditorState {
    let (c, o) = event_step(s.cursor, s.offset, s.size, s.mode, ev);
    EditorState { cursor: c, offset: o, mode: mode_after(s.mode, ev), ..s }
}

/// The state after a run of decoded events.
pub open spec fn stepped_all(s: EditorState, evs: Seq<InputEvent>) -> EditorState
    decreases evs.len(),
{
    if evs.len() == 0 {
        s
    } else {
        stepped_all(stepped(s, evs[0]), evs.drop_first())
    }
}

/// Everything the editor shows and moves.
pub struct EditorState {
    pub size: WindowSize,
    pub cursor: CursorPosition,
    pub offset: ViewportOffset,
    pub document: Option<Vec<String>>,
    pub mode: EditorMode,
}

impl EditorState {
    /// The size is usable and the cursor lies in the text area.
    pub open spec fn wf(&self) -> bool {
        self.size.wf() && cursor_in_bounds(self.cursor, self.size)
    }

    /// The document lines, empty when no document was offered.
    pub open spec fn lines(&self) -> Seq<String> {
        match self.document {
            Some(v) => v@,
            None => Seq::empty(),
        }
    }

    /// A fresh editor: cursor at the top-left of the text area, no scrolling,
    /// and the welcome screen unless a document was offered.
    pub fn new(size: WindowSize, document: Option<Vec<String>>) -> (r: EditorState)
        requires
            size.wf(),
        ensures
            r.wf(),
            r.size == size,
            r.cursor == (CursorPosition { column: COL_START_POS, row: ROW_START_POS }),
            r.offset == (ViewportOffset { row_offset: 0, col_offset: 0 }),
            r.document == document,
            r.mode == (if document is Some {
                EditorMode::Editing
            } else {
                EditorMode::Welcome
            }),
    {
        let mode = if document.is_some() {
            EditorMode::Editing
        } else {
            EditorMode::Welcome
        };
        EditorState {
            size,
            cursor: CursorPosition { column: COL_START_POS, row: ROW_START_POS },
            offset: ViewportOffset { row_offset: 0, col_offset: 0 },
            document,
            mode,
        }
    }

    /// Moves the cursor or scrolls for one arrow key.
    pub fn arrow_key(&mut self, k: ArrowKey)
        requires
            old(self).wf(),
        ensures
            final(self).wf(),
            (final(self).cursor, final(self).offset) == arrow_step(
                old(self).cursor,
                old(self).offset,
                old(self).size,
                k,
            ),
            final(self).size == old(self).size,
            final(self).document == old(self).document,
            final(self).mode == old(self).mode,
    {
        let bottom: u16 = if self.size.rows > ROW_START_POS {
            self.size.rows - 1
        } else {
            ROW_START_POS
        };
        let right: u16 = if self.size.columns > COL_START_POS {
            self.size.columns - 1
        } else {
            COL_START_POS
        };
        match k {
            ArrowKey::Up => {
                if self.cursor.row == ROW_START_POS && self.offset.row_offset > 0 {
                    self.offset.row_offset = self.offset.row_offset - 1;
                } else if self.cursor.row != ROW_START_POS {
                    self.cursor.row = self.cursor.row - 1;
                }
            },
            ArrowKey::Down => {
                if self.cursor.row >= bottom {
                    if self.offset.row_offset < usize::MAX {
                        self.offset.row_offset = self.offset.row_offset + 1;
                    }
                } else {
                    self.cursor.row = self.cursor.row + 1;
                }
            },
            ArrowKey::Left => {
                if self.cursor.column != COL_START_POS {
                    self.cursor.column = self.cursor.column - 1;
                }
            },
            ArrowKey::Right => {
                if self.cursor.column < right {
                    self.cursor.column = self.cursor.column + 1;
                }
            },
        }
    }

    /// Applies one decoded event; returns whether the editor keeps running,
    /// which is false exactly for `Quit`.
    pub fn apply_event(&mut self, ev: InputEvent) -> (running: bool)
        requires
            old(self).wf(),
        ensures
            final(self).wf(),
            running == (ev != InputEvent::Quit),
            *final(self) == stepped(*old(self), ev),
            final(self).mode == mode_after(old(self).mode, ev),
            (final(self).cursor, final(self).offset) == event_step(
                old(self).cursor,
                old(self).offset,
                old(self).size,
                old(self).mode,
                ev,
            ),
            final(self).size == old(self).size,
            final(self).document == old(self).document,
    {
        match ev {
            InputEvent::Quit => false,
            InputEvent::EnterEdit => {
                self.mode = EditorMode::Editing;
                true
            },
            InputEvent::Arrow(k) => {
                if self.mode == EditorMode::Editing {
                    self.arrow_key(k);
                }
                true
            },
            InputEvent::Other => true,
        }
    }

    /// Takes a new window size: the cursor is pulled back into the new text
    /// area, and the returned commands re-declare the scrollable region.
    pub fn apply_resize(&mut self, size: WindowSize) -> (cmds: Vec<DrawCommand>)
        requires
            old(self).wf(),
            size.wf(),
        ensures
            final(self).wf(),
            final(self).size == size,
            final(self).cursor == clamped_cursor(old(self).cursor, size),
            *final(self) == resized(*old(self), size),
            final(self).offset == old(self).offset,
            final(self).document == old(self).document,
            final(self).mode == old(self).mode,
            cmds@ == seq![
                DrawCommand::ResetScrollRegion,
                DrawCommand::SetScrollRegion { top: ROW_START_POS, bottom: region_bottom(size.rows) },
            ],
    {
        let bottom: u16 = if size.rows > ROW_START_POS {
            size.rows - 1
        } else {
            ROW_START_POS
        };
        let right: u16 = if size.columns > COL_START_POS {
            size.columns - 1
        } else {
            COL_START_POS
        };
        self.size = size;
        if self.cursor.row > bottom {
            self.cursor.row = bottom;
        }
        if self.cursor.column > right {
            self.cursor.column = right;
        }
        let mut cmds: Vec<DrawCommand> = Vec::new();
        cmds.push(DrawCommand::ResetScrollRegion);
        cmds.push(DrawCommand::SetScrollRegion { top: ROW_START_POS, bottom: size.rows - 1 });
        cmds
    }
}

/// One event keeps a well-formed state well formed: the cursor never
/// leaves the text area.
pub proof fn lemma_step_keeps_cursor_in_bounds(s: EditorState, ev: InputEvent)
    requires
        s.wf(),
    ensures
        stepped(s, ev).wf(),
        stepped(s, ev).size == s.size,
{
}

/// After any run of events, arrows included, the cursor row stays between
/// the first text row and the row above the status bar.
pub proof fn lemma_cursor_row_stays_in_view(s: EditorState, evs: Seq<InputEvent>)
    requires
        s.wf(),
        s.size.rows > ROW_START_POS,
    ensures
        stepped_all(s, evs).wf(),
        ROW_START_POS <= stepped_all(s, evs).cursor.row <= s.size.rows - 1,
    decreases evs.len(),
{
    if evs.len() > 0 {
        lemma_step_keeps_cursor_in_bounds(s, evs[0]);
        lemma_cursor_row_stays_in_view(stepped(s, evs[0]), evs.drop_first());
    }
}

/// `EnterEdit` on the welcome screen starts editing, and while editing it
/// changes nothing.
pub proof fn lemma_enter_edit(s: EditorState)
    ensures
        s.mode == EditorMode::Welcome ==> stepped(s, InputEvent::EnterEdit).mode
            == EditorMode::Editing,
        s.mode == EditorMode::Editing ==> stepped(s, InputEvent::EnterEdit) == s,
{
}

/// No run of events leads from editing back to the welcome screen.
pub proof fn lemma_editing_is_final(s: EditorState, evs: Seq<InputEvent>)
    requires
        s.mode == EditorMode::Editing,
    ensures
        stepped_all(s, evs).mode == EditorMode::Editing,
    decreases evs.len(),
{
    if evs.len() > 0 {
        lemma_editing_is_final(stepped(s, evs[0]), evs.drop_first());
    }
}

} // verus!
