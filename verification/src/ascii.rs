//! The ASCII bytes that a rendered line is built from.

use vstd::prelude::*;

verus! {

/// `\n`, the byte that separates the lines of a message.
pub const LINE_BREAK: u8 = 0x0a;

/// The blank that separates header fields and pads values.
pub const SPACE: u8 = 0x20;

/// `+`
pub const PLUS: u8 = 0x2b;

/// `-`
pub const MINUS: u8 = 0x2d;

/// `.`
pub const DOT: u8 = 0x2e;

/// `0`
pub const ZERO: u8 = 0x30;

/// `:`
pub const COLON: u8 = 0x3a;

/// `[`, which opens the header.
pub const OPEN_BRACKET: u8 = 0x5b;

/// `]`, which closes the header.
pub const CLOSE_BRACKET: u8 = 0x5d;

/// Whether `byte` is one of `0` to `9`.
pub open spec fn is_digit(byte: u8) -> bool {
    ZERO <= byte <= ZERO + 9
}

/// The byte of the decimal digit `d`, for `d` from 0 to 9.
pub open spec fn digit(d: int) -> u8
    recommends
        0 <= d <= 9,
{
    (ZERO + d) as u8
}

/// `n` as two decimal digits, for `n` below 100.
pub open spec fn two_digits(n: int) -> Seq<u8>
    recommends
        0 <= n < 100,
{
    seq![digit(n / 10), digit(n % 10)]
}

/// `count` blanks.
pub open spec fn spaces(count: nat) -> Seq<u8> {
    Seq::new(count, |i: int| SPACE)
}

/// `text` followed by as many blanks as bring it to `width` bytes; `text`
/// itself where it is that long already.
pub open spec fn pad_right(text: Seq<u8>, width: nat) -> Seq<u8> {
    if text.len() >= width {
        text
    } else {
        text + spaces((width - text.len()) as nat)
    }
}

/// Appends `count` blanks to `out`.
pub fn push_spaces(out: &mut Vec<u8>, count: usize)
    ensures
        final(out)@ == old(out)@ + spaces(count as nat),
{
    let mut written: usize = 0;
    while written < count
        invariant
            written <= count,
            out@ == old(out)@ + spaces(written as nat),
        decreases count - written,
    {
        out.push(SPACE);
        written = written + 1;
        assert(out@ == old(out)@ + spaces(written as nat));
    }
}

/// Appends `text` to `out`, then blanks up to `width` bytes in all.
pub fn push_padded(out: &mut Vec<u8>, text: &[u8], width: usize)
    ensures
        final(out)@ == old(out)@ + pad_right(text@, width as nat),
{
    out.extend_from_slice(text);
    assert(out@ == old(out)@ + text@);
    if text.len() < width {
        push_spaces(out, width - text.len());
        assert(out@ == old(out)@ + (text@ + spaces((width - text@.len()) as nat)));
    }
}

} // verus!
