//! The terminal escape-sequence protocol: each draw command as bytes, and a
//! whole frame as the one buffer that is written in a single call.

use vstd::prelude::*;
use vstd::utf8::encode_utf8;
use crate::render::{label_str, label_text, DrawCommand, Style};

verus! {

/// The control sequence introducer `ESC [`.
pub open spec fn csi() -> Seq<u8> {
    seq![0x1bu8, 0x5bu8]
}

/// The ASCII decimal digits of `n`, most significant first.
pub open spec fn decimal(n: nat) -> Seq<u8>
    decreases n,
{
    if n < 10 {
        seq![(0x30 + n) as u8]
    } else {
        decimal(n / 10) + seq![(0x30 + n % 10) as u8]
    }
}

/// The select-graphic-rendition sequence of a style.
pub open spec fn style_bytes(st: Style) -> Seq<u8> {
    match st {
        Style::Reset => csi() + seq![0x30u8, 0x6du8],
        Style::BadgeBackground => csi() + seq![0x34u8, 0x37u8, 0x6du8],
        Style::BadgeLetter => csi() + seq![0x33u8, 0x30u8, 0x6du8],
        Style::Bar => csi() + seq![0x31u8, 0x3bu8, 0x34u8, 0x30u8, 0x6du8],
        Style::BarLabel => csi() + seq![0x31u8, 0x3bu8, 0x34u8, 0x30u8, 0x6du8] + csi() + seq![
            0x33u8,
            0x30u8,
            0x6du8,
        ],
        Style::LineNumber => csi() + seq![0x31u8, 0x3bu8, 0x33u8, 0x30u8, 0x6du8],
    }
}

/// The bytes of one draw command: `ESC[row;colH` moves, `ESC[2J ESC[H`
/// clears the screen, `ESC[2K` the line, `ESC[top;bottomr` sets and `ESC[r`
/// resets the scrollable region, `ESC[?1049h` / `ESC[?1049l` enter and leave
/// the alternate screen; text is written as UTF-8.
pub open spec fn command_bytes(c: DrawCommand) -> Seq<u8> {
    match c {
        DrawCommand::MoveTo { column, row } => csi() + decimal(row as nat) + seq![0x3bu8]
            + decimal(column as nat) + seq![0x48u8],
        DrawCommand::ClearScreen => csi() + seq![0x32u8, 0x4au8] + csi() + seq![0x48u8],
        DrawCommand::ClearLine => csi() + seq![0x32u8, 0x4bu8],
        DrawCommand::SetScrollRegion { top, bottom } => csi() + decimal(top as nat) + seq![0x3bu8]
            + decimal(bottom as nat) + seq![0x72u8],
        DrawCommand::ResetScrollRegion => csi() + seq![0x72u8],
        DrawCommand::EnterAlternateScreen => csi() + seq![
            0x3fu8,
            0x31u8,
            0x30u8,
            0x34u8,
            0x39u8,
            0x68u8,
        ],
        DrawCommand::LeaveAlternateScreen => csi() + seq![
            0x3fu8,
            0x31u8,
            0x30u8,
            0x34u8,
            0x39u8,
            0x6cu8,
        ],
        DrawCommand::SetStyle(st) => style_bytes(st),
        DrawCommand::Label(l) => encode_utf8(label_str(l)),
        DrawCommand::Text(s) => encode_utf8(s@),
        DrawCommand::Number(n) => decimal(n as nat),
        DrawCommand::Blank(n) => Seq::new(n as nat, |i: int| 0x20u8),
    }
}

/// The bytes of a run of commands, one after the other.
pub open spec fn frame_bytes(cmds: Seq<DrawCommand>) -> Seq<u8>
    decreases cmds.len(),
{
    if cmds.len() == 0 {
        Seq::empty()
    } else {
        frame_bytes(cmds.drop_last()) + command_bytes(cmds.last())
    }
}

fn push_slice(buf: &mut Vec<u8>, bytes: &[u8])
    ensures
        final(buf)@ == old(buf)@ + bytes@,
{
    let mut i: usize = 0;
    while i < bytes.len()
        invariant
            i <= bytes@.len(),
            buf@ == old(buf)@ + bytes@.subrange(0, i as int),
        decreases bytes.len() - i,
    {
        buf.push(bytes[i]);
        i = i + 1;
        assert(buf@ =~= old(buf)@ + bytes@.subrange(0, i as int));
    }
    assert(bytes@.subrange(0, i as int) =~= bytes@);
}

fn push_csi(buf: &mut Vec<u8>)
    ensures
        final(buf)@ == old(buf)@ + csi(),
{
    buf.push(0x1b);
    buf.push(0x5b);
    assert(buf@ =~= old(buf)@ + csi());
}

pub(crate) fn push_decimal(buf: &mut Vec<u8>, n: usize)
    ensures
        final(buf)@ == old(buf)@ + decimal(n as nat),
    decreases n,
{
    if n >= 10 {
        push_decimal(buf, n / 10);
    }
    buf.push(0x30 + (n % 10) as u8);
    assert(buf@ =~= old(buf)@ + decimal(n as nat));
}

fn push_style(buf: &mut Vec<u8>, st: Style)
    ensures
        final(buf)@ == old(buf)@ + style_bytes(st),
{
    push_csi(buf);
    match st {
        Style::Reset => {
            buf.push(0x30);
        },
        Style::BadgeBackground => {
            buf.push(0x34);
            buf.push(0x37);
        },
        Style::BadgeLetter => {
            buf.push(0x33);
            buf.push(0x30);
        },
        Style::Bar | Style::BarLabel => {
            buf.push(0x31);
            buf.push(0x3b);
            buf.push(0x34);
            buf.push(0x30);
        },
        Style::LineNumber => {
            buf.push(0x31);
            buf.push(0x3b);
            buf.push(0x33);
            buf.push(0x30);
        },
    }
    buf.push(0x6d);
    if st == Style::BarLabel {
        push_csi(buf);
        buf.push(0x33);
        buf.push(0x30);
        buf.push(0x6d);
    }
    assert(buf@ =~= old(buf)@ + style_bytes(st));
}

/// Appends the bytes of one draw command.
pub fn encode_command(buf: &mut Vec<u8>, c: &DrawCommand)
    ensures
        final(buf)@ == old(buf)@ + command_bytes(*c),
{
    match c {
        DrawCommand::MoveTo { column, row } => {
            push_csi(buf);
            push_decimal(buf, *row);
            buf.push(0x3b);
            push_decimal(buf, *column);
            buf.push(0x48);
        },
        DrawCommand::ClearScreen => {
            push_csi(buf);
            buf.push(0x32);
            buf.push(0x4a);
            push_csi(buf);
            buf.push(0x48);
        },
        DrawCommand::ClearLine => {
            push_csi(buf);
            buf.push(0x32);
            buf.push(0x4b);
        },
        DrawCommand::SetScrollRegion { top, bottom } => {
            push_csi(buf);
            push_decimal(buf, *top as usize);
            buf.push(0x3b);
            push_decimal(buf, *bottom as usize);
            buf.push(0x72);
        },
        DrawCommand::ResetScrollRegion => {
            push_csi(buf);
            buf.push(0x72);
        },
        DrawCommand::EnterAlternateScreen | DrawCommand::LeaveAlternateScreen => {
            push_csi(buf);
            buf.push(0x3f);
            buf.push(0x31);
            buf.push(0x30);
            buf.push(0x34);
            buf.push(0x39);
            if let DrawCommand::EnterAlternateScreen = c {
                buf.push(0x68);
            } else {
                buf.push(0x6c);
            }
        },
        DrawCommand::SetStyle(st) => {
            push_style(buf, *st);
        },
        DrawCommand::Label(l) => {
            push_slice(buf, label_text(*l).as_bytes());
        },
        DrawCommand::Text(s) => {
            push_slice(buf, s.as_str().as_bytes());
        },
        DrawCommand::Number(n) => {
            push_decimal(buf, *n);
        },
        DrawCommand::Blank(n) => {
            let ghost start = old(buf)@;
            let mut i: usize = 0;
            while i < *n
                invariant
                    i <= *n,
                    buf@ == start + Seq::new(i as nat, |j: int| 0x20u8),
                decreases *n - i,
            {
                buf.push(0x20);
                i = i + 1;
                assert(buf@ =~= start + Seq::new(i as nat, |j: int| 0x20u8));
            }
        },
    }
    assert(buf@ =~= old(buf)@ + command_bytes(*c));
}

/// The whole frame as one buffer, ready for a single write.
pub fn encode_frame(frame: &Vec<DrawCommand>) -> (r: Vec<u8>)
    ensures
        r@ == frame_bytes(frame@),
{
    let mut buf: Vec<u8> = Vec::new();
    let mut i: usize = 0;
    while i < frame.len()
        invariant
            i <= frame@.len(),
            buf@ == frame_bytes(frame@.take(i as int)),
        decreases frame.len() - i,
    {
        encode_command(&mut buf, &frame[i]);
        assert(frame@.take(i + 1).drop_last() =~= frame@.take(i as int));
        i = i + 1;
    }
    assert(frame@.take(i as int) =~= frame@);
    buf
}

} // verus!
