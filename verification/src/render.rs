//! The text of one output line: decimal numbers, padded columns, and the
//! layout of an event.

use vstd::prelude::*;
use vstd::string::*;
use crate::event::{DeviceEvent, EventView};

verus! {

/// Width of the seconds column, filled with zeros on the left.
pub const SECONDS_WIDTH: usize = 12;

/// Least width of the microseconds column.
pub const MICROS_WIDTH: usize = 9;

/// Least width of the column that names the event's category.
pub const TYPE_WIDTH: usize = 12;

/// Least width of the column that names the event's code.
pub const CODE_WIDTH: usize = 24;

/// The character for one decimal digit.
pub open spec fn digit(d: int) -> char {
    if d == 0 {
        '0'
    } else if d == 1 {
        '1'
    } else if d == 2 {
        '2'
    } else if d == 3 {
        '3'
    } else if d == 4 {
        '4'
    } else if d == 5 {
        '5'
    } else if d == 6 {
        '6'
    } else if d == 7 {
        '7'
    } else if d == 8 {
        '8'
    } else {
        '9'
    }
}

/// A natural number in decimal, without leading zeros.
pub open spec fn decimal(n: nat) -> Seq<char>
    decreases n,
{
    if n < 10 {
        seq![digit(n as int)]
    } else {
        decimal(n / 10).push(digit((n % 10) as int))
    }
}

/// An integer in decimal, with a minus sign in front of a negative one.
pub open spec fn signed_decimal(v: int) -> Seq<char> {
    if v < 0 {
        seq!['-'] + decimal((-v) as nat)
    } else {
        decimal(v as nat)
    }
}

/// `count` copies of `c`; nothing when `count` is not positive.
pub open spec fn fill(count: int, c: char) -> Seq<char> {
    Seq::new(
        if count > 0 {
            count as nat
        } else {
            0
        },
        |i: int| c,
    )
}

/// `text` moved to the right end of a column of `width`, with `c` in front.
/// Text longer than the column is kept whole.
pub open spec fn pad_start(text: Seq<char>, width: nat, c: char) -> Seq<char> {
    fill(width - text.len(), c) + text
}

/// `text` at the left end of a column of `width`, with `c` behind it.
/// Text longer than the column is kept whole.
pub open spec fn pad_end(text: Seq<char>, width: nat, c: char) -> Seq<char> {
    text + fill(width - text.len(), c)
}

/// The line for one event: seconds filled with zeros to twelve digits, a dot,
/// microseconds, the category's name, the code's name and the value, the
/// columns one space apart.
pub open spec fn event_line(ev: EventView) -> Seq<char> {
    pad_start(decimal(ev.time.seconds as nat), SECONDS_WIDTH as nat, '0') + seq!['.'] + pad_end(
        decimal(ev.time.microseconds as nat),
        MICROS_WIDTH as nat,
        ' ',
    ) + seq![' '] + pad_end(ev.type_label, TYPE_WIDTH as nat, ' ') + seq![' '] + pad_end(
        ev.code_label,
        CODE_WIDTH as nat,
        ' ',
    ) + seq![' '] + signed_decimal(ev.value as int)
}

fn digit_text(d: u64) -> (s: &'static str)
    requires
        d < 10,
    ensures
        s@ == seq![digit(d as int)],
{
    proof {
        reveal_strlit("0");
        reveal_strlit("1");
        reveal_strlit("2");
        reveal_strlit("3");
        reveal_strlit("4");
        reveal_strlit("5");
        reveal_strlit("6");
        reveal_strlit("7");
        reveal_strlit("8");
        reveal_strlit("9");
    }
    if d == 0 {
        "0"
    } else if d == 1 {
        "1"
    } else if d == 2 {
        "2"
    } else if d == 3 {
        "3"
    } else if d == 4 {
        "4"
    } else if d == 5 {
        "5"
    } else if d == 6 {
        "6"
    } else if d == 7 {
        "7"
    } else if d == 8 {
        "8"
    } else {
        "9"
    }
}

/// Appends `n` in decimal to `out`.
pub fn push_decimal(out: &mut String, n: u64)
    ensures
        final(out)@ == old(out)@ + decimal(n as nat),
    decreases n,
{
    if n >= 10 {
        push_decimal(out, n / 10);
    }
    out.append(digit_text(n % 10));
}

/// Appends `v` in decimal to `out`, a negative one with its sign.
pub fn push_signed_decimal(out: &mut String, v: i32)
    ensures
        final(out)@ == old(out)@ + signed_decimal(v as int),
{
    if v < 0 {
        proof {
            reveal_strlit("-");
        }
        out.append("-");
        let magnitude: u64 = (-(v as i64)) as u64;
        push_decimal(out, magnitude);
    } else {
        push_decimal(out, v as u64);
    }
}

/// `n` in decimal.
pub fn decimal_string(n: u64) -> (s: String)
    ensures
        s@ == decimal(n as nat),
{
    let mut s = String::new();
    push_decimal(&mut s, n);
    s
}

/// Appends `count` copies of the one character that `c` holds.
fn push_fill(out: &mut String, count: usize, c: &str)
    requires
        c@.len() == 1,
    ensures
        final(out)@ == old(out)@ + fill(count as int, c@[0]),
{
    let mut done: usize = 0;
    while done < count
        invariant
            done <= count,
            c@.len() == 1,
            out@ == old(out)@ + fill(done as int, c@[0]),
        decreases count - done,
    {
        out.append(c);
        done = done + 1;
    }
}

/// Appends `text` to `out`, then spaces up to a column of `width`.
pub fn push_padded_end(out: &mut String, text: &str, width: usize)
    ensures
        final(out)@ == old(out)@ + pad_end(text@, width as nat, ' '),
{
    proof {
        reveal_strlit(" ");
    }
    out.append(text);
    let len: usize = text.unicode_len();
    if len < width {
        push_fill(out, width - len, " ");
    }
}

/// Appends zeros and then `text` to `out`, so that both fill a column of
/// `width`.
pub fn push_zero_padded(out: &mut String, text: &str, width: usize)
    ensures
        final(out)@ == old(out)@ + pad_start(text@, width as nat, '0'),
{
    proof {
        reveal_strlit("0");
    }
    let len: usize = text.unicode_len();
    if len < width {
        push_fill(out, width - len, "0");
    }
    out.append(text);
}

/// Renders the line for one event.
pub fn format_event(ev: &DeviceEvent) -> (line: String)
    ensures
        line@ == event_line(ev@),
{
    proof {
        reveal_strlit(".");
        reveal_strlit(" ");
    }
    let mut line = String::new();
    let seconds = decimal_string(ev.time.seconds);
    push_zero_padded(&mut line, seconds.as_str(), SECONDS_WIDTH);
    line.append(".");
    let micros = decimal_string(ev.time.microseconds as u64);
    push_padded_end(&mut line, micros.as_str(), MICROS_WIDTH);
    line.append(" ");
    push_padded_end(&mut line, ev.type_label.as_str(), TYPE_WIDTH);
    line.append(" ");
    push_padded_end(&mut line, ev.code_label.as_str(), CODE_WIDTH);
    line.append(" ");
    push_signed_decimal(&mut line, ev.value);
    line
}

} // verus!
