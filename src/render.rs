//! Frames as sequences of draw commands.

use vstd::prelude::*;
use crate::editor::{visible_rows, EditorState, COL_START_POS, ROW_START_POS};
use crate::input::EditorMode;
use crate::watcher::WindowSize;

verus! {

/// Colours and weights used by the frame.
#[derive(Clone, Copy, Debug, PartialEq, Eq, Structural)]
pub enum Style {
    Reset,
    BadgeBackground,
    BadgeLetter,
    Bar,
    BarLabel,
    LineNumber,
}

/// Fixed texts of the frame.
#[derive(Clone, Copy, Debug, PartialEq, Eq, Structural)]
pub enum Label {
    Title,
    Hint,
    BadgeLetter,
    FileType,
    OpenBracket,
    CloseBracket,
}

/// One drawing step. Screen positions are 1-based.
#[derive(Clone, Debug, PartialEq)]
pub enum DrawCommand {
    MoveTo { column: usize, row: usize },
    ClearScreen,
    ClearLine,
    SetScrollRegion { top: u16, bottom: u16 },
    ResetScrollRegion,
    EnterAlternateScreen,
    LeaveAlternateScreen,
    SetStyle(Style),
    Label(Label),
    Text(String),
    Number(usize),
    Blank(usize),
}

/// Screen column of the line-number gutter.
pub const GUTTER_COLUMN: usize = 2;

/// Screen column where the status bar shows the file name.
pub const FILE_NAME_COLUMN: usize = 8;

/// The text of a label.
pub open spec fn label_str(l: Label) -> Seq<char> {
    match l {
        Label::Title => "beer v0.1.0"@,
        Label::Hint => "Press 'e' to start editing! 'q' to quit."@,
        Label::BadgeLetter => "B"@,
        Label::FileType => "unknown"@,
        Label::OpenBracket => "["@,
        Label::CloseBracket => "]"@,
    }
}

/// The length of a label, in characters (each one column wide).
pub open spec fn label_len(l: Label) -> nat {
    match l {
        Label::Title => 11,
        Label::Hint => 40,
        Label::BadgeLetter => 1,
        Label::FileType => 7,
        Label::OpenBracket => 1,
        Label::CloseBracket => 1,
    }
}

/// The text of a label.
pub fn label_text(l: Label) -> (r: &'static str)
    ensures
        r@ == label_str(l),
        r@.len() == label_len(l),
{
    proof {
        reveal_strlit("beer v0.1.0");
        reveal_strlit("Press 'e' to start editing! 'q' to quit.");
        reveal_strlit("B");
        reveal_strlit("unknown");
        reveal_strlit("[");
        reveal_strlit("]");
    }
    match l {
        Label::Title => "beer v0.1.0",
        Label::Hint => "Press 'e' to start editing! 'q' to quit.",
        Label::BadgeLetter => "B",
        Label::FileType => "unknown",
        Label::OpenBracket => "[",
        Label::CloseBracket => "]",
    }
}

/// `l` drawn centred horizontally on row `row`, or nothing when the window
/// is not wider than the label.
pub open spec fn centred_label(size: WindowSize, row: int, l: Label) -> Seq<DrawCommand> {
    if label_len(l) < size.columns {
        seq![
            DrawCommand::MoveTo { column: ((size.columns - label_len(l)) / 2) as usize, row: row as usize },
            DrawCommand::Label(l),
        ]
    } else {
        Seq::empty()
    }
}

/// The welcome screen: title on the middle row, hint below it.
pub open spec fn welcome_frame(size: WindowSize) -> Seq<DrawCommand> {
    centred_label(size, size.rows as int / 2, Label::Title) + centred_label(
        size,
        size.rows as int / 2 + 1,
        Label::Hint,
    )
}

/// The status bar on the last row: a filled bar, the badge at the left,
/// the file name in brackets, and the file type ending at the right edge
/// (from column 0 when the window is exactly as wide as that label).
pub open spec fn status_bar_frame(size: WindowSize, file_name: String) -> Seq<DrawCommand> {
    let row = size.rows as usize;
    seq![
        DrawCommand::MoveTo { column: GUTTER_COLUMN, row },
        DrawCommand::ClearLine,
        DrawCommand::SetStyle(Style::Bar),
        DrawCommand::Blank((size.columns - 1) as usize),
        DrawCommand::SetStyle(Style::Reset),
        DrawCommand::MoveTo { column: 1, row },
        DrawCommand::SetStyle(Style::BadgeBackground),
        DrawCommand::Blank(2),
        DrawCommand::SetStyle(Style::BadgeLetter),
        DrawCommand::Label(Label::BadgeLetter),
        DrawCommand::Blank(2),
        DrawCommand::SetStyle(Style::Reset),
        DrawCommand::MoveTo { column: FILE_NAME_COLUMN, row },
        DrawCommand::SetStyle(Style::Bar),
        DrawCommand::Label(Label::OpenBracket),
        DrawCommand::Text(file_name),
        DrawCommand::Label(Label::CloseBracket),
        DrawCommand::SetStyle(Style::Reset),
    ] + if label_len(Label::FileType) <= size.columns {
        seq![
            DrawCommand::MoveTo {
                column: (size.columns - label_len(Label::FileType)) as usize,
                row,
            },
            DrawCommand::SetStyle(Style::BarLabel),
            DrawCommand::Label(Label::FileType),
            DrawCommand::SetStyle(Style::Reset),
        ]
    } else {
        Seq::empty()
    }
}

/// Document line `lc` drawn on its screen row when the view starts at line
/// `offset`: gutter with its number, then its text.
pub open spec fn row_frame(lc: int, offset: int, line: String) -> Seq<DrawCommand> {
    let row = (ROW_START_POS + lc - offset) as usize;
    seq![
        DrawCommand::MoveTo { column: GUTTER_COLUMN, row },
        DrawCommand::ClearLine,
        DrawCommand::SetStyle(Style::LineNumber),
        DrawCommand::Number(lc as usize),
        DrawCommand::SetStyle(Style::Reset),
        DrawCommand::MoveTo { column: COL_START_POS as usize, row },
        DrawCommand::Text(line),
    ]
}

/// Lines `offset .. end` of the document drawn in order.
pub open spec fn rows_frame(lines: Seq<String>, offset: int, end: int) -> Seq<DrawCommand>
    decreases end - offset,
{
    if end <= offset {
        Seq::empty()
    } else {
        rows_frame(lines, offset, end - 1) + row_frame(end - 1, offset, lines[end - 1])
    }
}

/// One past the last document line shown when the view starts at `offset`
/// and `visible` rows are available.
pub open spec fn visible_end(len: int, offset: int, visible: int) -> int {
    if offset >= len {
        offset
    } else if len - offset <= visible {
        len
    } else {
        offset + visible
    }
}

/// The rows of the document that fall in the viewport.
pub open spec fn document_frame(s: EditorState) -> Seq<DrawCommand> {
    rows_frame(
        s.lines(),
        s.offset.row_offset as int,
        visible_end(
            s.lines().len() as int,
            s.offset.row_offset as int,
            visible_rows(s.size.rows),
        ),
    )
}

/// The whole frame for a state: welcome screen or document rows, then the
/// status bar, then the cursor placed where the state has it.
pub open spec fn frame_of(s: EditorState, file_name: String) -> Seq<DrawCommand> {
    (if s.mode == EditorMode::Welcome {
        welcome_frame(s.size)
    } else {
        document_frame(s)
    }) + status_bar_frame(s.size, file_name) + seq![
        DrawCommand::MoveTo {
            column: s.cursor.column as usize,
            row: s.cursor.row as usize,
        },
    ]
}

/// The width of a label on screen.
pub fn label_width(l: Label) -> (r: usize)
    ensures
        r == label_len(l),
{
    match l {
        Label::Title => 11,
        Label::Hint => 40,
        Label::BadgeLetter => 1,
        Label::FileType => 7,
        Label::OpenBracket => 1,
        Label::CloseBracket => 1,
    }
}

/// Appends `l` centred on `row`, when it fits.
fn push_centred_label(frame: &mut Vec<DrawCommand>, size: WindowSize, row: u16, l: Label)
    ensures
        final(frame)@ == old(frame)@ + centred_label(size, row as int, l),
{
    let len = label_width(l);
    if len < size.columns as usize {
        let column = (size.columns as usize - len) / 2;
        frame.push(DrawCommand::MoveTo { column, row: row as usize });
        frame.push(DrawCommand::Label(l));
    }
    assert(final(frame)@ =~= old(frame)@ + centred_label(size, row as int, l));
}

/// Appends the welcome screen.
fn push_welcome(frame: &mut Vec<DrawCommand>, size: WindowSize)
    ensures
        final(frame)@ == old(frame)@ + welcome_frame(size),
{
    let y: u16 = size.rows / 2;
    push_centred_label(frame, size, y, Label::Title);
    push_centred_label(frame, size, y + 1, Label::Hint);
    assert(final(frame)@ =~= old(frame)@ + welcome_frame(size));
}

/// Appends the status bar.
fn push_status_bar(frame: &mut Vec<DrawCommand>, size: WindowSize, file_name: &String)
    requires
        size.wf(),
    ensures
        final(frame)@ == old(frame)@ + status_bar_frame(size, *file_name),
{
    let row = size.rows as usize;
    frame.push(DrawCommand::MoveTo { column: GUTTER_COLUMN, row });
    frame.push(DrawCommand::ClearLine);
    frame.push(DrawCommand::SetStyle(Style::Bar));
    frame.push(DrawCommand::Blank(size.columns as usize - 1));
    frame.push(DrawCommand::SetStyle(Style::Reset));
    frame.push(DrawCommand::MoveTo { column: 1, row });
    frame.push(DrawCommand::SetStyle(Style::BadgeBackground));
    frame.push(DrawCommand::Blank(2));
    frame.push(DrawCommand::SetStyle(Style::BadgeLetter));
    frame.push(DrawCommand::Label(Label::BadgeLetter));
    frame.push(DrawCommand::Blank(2));
    frame.push(DrawCommand::SetStyle(Style::Reset));
    frame.push(DrawCommand::MoveTo { column: FILE_NAME_COLUMN, row });
    frame.push(DrawCommand::SetStyle(Style::Bar));
    frame.push(DrawCommand::Label(Label::OpenBracket));
    frame.push(DrawCommand::Text(file_name.clone()));
    frame.push(DrawCommand::Label(Label::CloseBracket));
    frame.push(DrawCommand::SetStyle(Style::Reset));
    let ft = label_width(Label::FileType);
    if ft <= size.columns as usize {
        frame.push(DrawCommand::MoveTo { column: size.columns as usize - ft, row });
        frame.push(DrawCommand::SetStyle(Style::BarLabel));
        frame.push(DrawCommand::Label(Label::FileType));
        frame.push(DrawCommand::SetStyle(Style::Reset));
    }
    assert(final(frame)@ =~= old(frame)@ + status_bar_frame(size, *file_name));
}

/// Appends the document lines that fall in the viewport.
fn push_document_rows(frame: &mut Vec<DrawCommand>, s: &EditorState)
    requires
        s.wf(),
    ensures
        final(frame)@ == old(frame)@ + document_frame(*s),
{
    let ghost start = old(frame)@;
    let offset = s.offset.row_offset;
    let visible: usize = if s.size.rows > ROW_START_POS {
        (s.size.rows - ROW_START_POS) as usize
    } else {
        0
    };
    match &s.document {
        Some(lines) => {
            let len = lines.len();
            let end: usize = if offset >= len {
                offset
            } else if len - offset <= visible {
                len
            } else {
                offset + visible
            };
            let mut lc: usize = offset;
            while lc < end
                invariant
                    offset <= lc <= end,
                    end == visible_end(len as int, offset as int, visible as int),
                    end <= len || end == offset,
                    visible <= u16::MAX,
                    lines@ == s.lines(),
                    len == lines@.len(),
                    frame@ == start + rows_frame(lines@, offset as int, lc as int),
                decreases end - lc,
            {
                let row = ROW_START_POS as usize + (lc - offset);
                frame.push(DrawCommand::MoveTo { column: GUTTER_COLUMN, row });
                frame.push(DrawCommand::ClearLine);
                frame.push(DrawCommand::SetStyle(Style::LineNumber));
                frame.push(DrawCommand::Number(lc));
                frame.push(DrawCommand::SetStyle(Style::Reset));
                frame.push(DrawCommand::MoveTo { column: COL_START_POS as usize, row });
                frame.push(DrawCommand::Text(lines[lc].clone()));
                lc = lc + 1;
                assert(frame@ =~= start + rows_frame(lines@, offset as int, lc as int));
            }
        },
        None => {
            assert(rows_frame(Seq::<String>::empty(), offset as int, offset as int) =~= Seq::<
                DrawCommand,
            >::empty());
            assert(frame@ =~= start + document_frame(*s));
        },
    }
}

/// The frame for `s`, with `file_name` in the status bar.
pub fn render(s: &EditorState, file_name: &String) -> (frame: Vec<DrawCommand>)
    requires
        s.wf(),
    ensures
        frame@ == frame_of(*s, *file_name),
{
    let mut frame: Vec<DrawCommand> = Vec::new();
    if s.mode == EditorMode::Welcome {
        push_welcome(&mut frame, s.size);
    } else {
        push_document_rows(&mut frame, s);
    }
    push_status_bar(&mut frame, s.size, file_name);
    frame.push(
        DrawCommand::MoveTo { column: s.cursor.column as usize, row: s.cursor.row as usize },
    );
    assert(frame@ =~= frame_of(*s, *file_name));
    frame
}

} // verus!
