//! Timestamps of the debug log: `YYYY-MM-DD HH:MM`.

use vstd::prelude::*;
use vstd::utf8::encode_utf8;
use crate::encode::{decimal, push_decimal};

verus! {

/// A local calendar time, to the minute.
#[derive(Clone, Copy, Debug, PartialEq, Eq, Structural)]
pub struct CalendarTime {
    pub year: u32,
    pub month: u8,
    pub day: u8,
    pub hour: u8,
    pub minute: u8,
}

/// `n` in decimal, padded with a leading zero to two digits.
pub open spec fn two_digits(n: nat) -> Seq<u8> {
    if n < 10 {
        seq![0x30u8] + decimal(n)
    } else {
        decimal(n)
    }
}

/// The timestamp of `t`: year, month and day joined by `-`, a space, then
/// hour and minute joined by `:`; all but the year two digits wide.
pub open spec fn stamp_bytes(t: CalendarTime) -> Seq<u8> {
    decimal(t.year as nat) + seq![0x2du8] + two_digits(t.month as nat) + seq![0x2du8]
        + two_digits(t.day as nat) + seq![0x20u8] + two_digits(t.hour as nat) + seq![0x3au8]
        + two_digits(t.minute as nat)
}

fn push_two_digits(buf: &mut Vec<u8>, n: u8)
    ensures
        final(buf)@ == old(buf)@ + two_digits(n as nat),
{
    if n < 10 {
        buf.push(0x30);
    }
    push_decimal(buf, n as usize);
    assert(buf@ =~= old(buf)@ + two_digits(n as nat));
}

/// The timestamp of `t` as bytes.
pub fn date_stamp(t: &CalendarTime) -> (r: Vec<u8>)
    ensures
        r@ == stamp_bytes(*t),
{
    let mut buf: Vec<u8> = Vec::new();
    push_decimal(&mut buf, t.year as usize);
    buf.push(0x2d);
    push_two_digits(&mut buf, t.month);
    buf.push(0x2d);
    push_two_digits(&mut buf, t.day);
    buf.push(0x20);
    push_two_digits(&mut buf, t.hour);
    buf.push(0x3a);
    push_two_digits(&mut buf, t.minute);
    assert(buf@ =~= stamp_bytes(*t));
    buf
}

/// One line of the debug log: the timestamp, a space, the message and a
/// line break.
pub fn log_line(t: &CalendarTime, message: &str) -> (r: Vec<u8>)
    ensures
        r@ == stamp_bytes(*t) + seq![0x20u8] + encode_utf8(message@) + seq![0x0au8],
{
    let mut buf = date_stamp(t);
    buf.push(0x20);
    let bytes = message.as_bytes();
    let ghost mid = buf@;
    let mut i: usize = 0;
    while i < bytes.len()
        invariant
            i <= bytes@.len(),
            bytes@ == encode_utf8(message@),
            buf@ == mid + bytes@.subrange(0, i as int),
        decreases bytes.len() - i,
    {
        buf.push(bytes[i]);
        i = i + 1;
        assert(buf@ =~= mid + bytes@.subrange(0, i as int));
    }
    assert(bytes@.subrange(0, i as int) =~= bytes@);
    buf.push(0x0a);
    assert(buf@ =~= stamp_bytes(*t) + seq![0x20u8] + encode_utf8(message@) + seq![0x0au8]);
    buf
}

} // verus!
