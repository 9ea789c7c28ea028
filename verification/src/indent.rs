//! Re-indenting a message: every line break in it gives way to a separator,
//! which is the policy's line ending followed by the indentation.

use crate::ascii::{spaces, LINE_BREAK};
use vstd::prelude::*;

verus! {

/// What is written for one byte of a message.
pub open spec fn indent_byte(byte: u8, separator: Seq<u8>) -> Seq<u8> {
    if byte == LINE_BREAK {
        separator
    } else {
        seq![byte]
    }
}

/// `text` with `separator` in place of each line break.
pub open spec fn indent(text: Seq<u8>, separator: Seq<u8>) -> Seq<u8>
    decreases text.len(),
{
    if text.len() == 0 {
        Seq::empty()
    } else {
        indent(text.drop_last(), separator) + indent_byte(text.last(), separator)
    }
}

/// What stands between two lines of a message: the line ending, then
/// `width` blanks.
pub open spec fn separator(suffix: Seq<u8>, width: nat) -> Seq<u8> {
    suffix + spaces(width)
}

/// How many line breaks `text` holds.
pub open spec fn count_breaks(text: Seq<u8>) -> nat
    decreases text.len(),
{
    if text.len() == 0 {
        0
    } else {
        count_breaks(text.drop_last()) + (if text.last() == LINE_BREAK {
            1nat
        } else {
            0nat
        })
    }
}

/// The lines of `text`: what stands before, between and after its line
/// breaks, in order. There is always at least one line, possibly empty.
pub open spec fn lines(text: Seq<u8>) -> Seq<Seq<u8>>
    decreases text.len(),
{
    if text.len() == 0 {
        seq![Seq::empty()]
    } else {
        let before = lines(text.drop_last());
        if text.last() == LINE_BREAK {
            before.push(Seq::empty())
        } else {
            before.drop_last().push(before.last().push(text.last()))
        }
    }
}

/// `parts` in order, with `separator` between each two of them.
pub open spec fn join(parts: Seq<Seq<u8>>, separator: Seq<u8>) -> Seq<u8>
    decreases parts.len(),
{
    if parts.len() == 0 {
        Seq::empty()
    } else if parts.len() == 1 {
        parts[0]
    } else {
        join(parts.drop_last(), separator) + separator + parts.last()
    }
}

/// Re-indenting works piece by piece: a text handed over in two parts
/// comes out as the two parts re-indented one after the other.
pub proof fn indent_concat(first: Seq<u8>, second: Seq<u8>, separator: Seq<u8>)
    ensures
        indent(first + second, separator) == indent(first, separator) + indent(second, separator),
    decreases second.len(),
{
    if second.len() == 0 {
        assert(first + second =~= first);
    } else {
        indent_concat(first, second.drop_last(), separator);
        assert((first + second).drop_last() =~= first + second.drop_last());
        assert((first + second).last() == second.last());
    }
}

/// A text without line breaks is left as it is.
pub proof fn indent_without_breaks(text: Seq<u8>, separator: Seq<u8>)
    requires
        forall|i: int| 0 <= i < text.len() ==> text[i] != LINE_BREAK,
    ensures
        indent(text, separator) == text,
    decreases text.len(),
{
    if text.len() > 0 {
        indent_without_breaks(text.drop_last(), separator);
        assert(text =~= text.drop_last().push(text.last()));
    }
}

/// The lines of a text: one more than it has line breaks, none of them
/// holding a line break.
pub proof fn lines_shape(text: Seq<u8>)
    ensures
        lines(text).len() == count_breaks(text) + 1,
        forall|i: int, j: int|
            0 <= i < lines(text).len() && 0 <= j < lines(text)[i].len() ==> lines(text)[i][j]
                != LINE_BREAK,
    decreases text.len(),
{
    if text.len() > 0 {
        lines_shape(text.drop_last());
    }
}

/// Re-indenting puts the separator between the lines of the text: once for
/// each line break, right where the break stood, and nowhere else.
pub proof fn indent_joins_lines(text: Seq<u8>, separator: Seq<u8>)
    ensures
        indent(text, separator) == join(lines(text), separator),
    decreases text.len(),
{
    if text.len() > 0 {
        let front = text.drop_last();
        let before = lines(front);
        indent_joins_lines(front, separator);
        lines_shape(front);
        if text.last() == LINE_BREAK {
            let after = before.push(Seq::empty());
            assert(after.drop_last() =~= before);
            assert(join(after, separator) =~= join(before, separator) + separator);
        } else {
            let grown = before.last().push(text.last());
            let after = before.drop_last().push(grown);
            assert(after.drop_last() =~= before.drop_last());
            if before.len() == 1 {
                assert(join(after, separator) =~= join(before, separator).push(text.last()));
            } else {
                assert(join(after, separator) =~= join(before, separator).push(text.last()));
            }
        }
    }
}

/// With the line break itself as separator, re-indenting changes nothing:
/// the lines of a text, joined by line breaks, are the text.
pub proof fn lines_round_trip(text: Seq<u8>)
    ensures
        join(lines(text), seq![LINE_BREAK]) == text,
        indent(text, seq![LINE_BREAK]) == text,
    decreases text.len(),
{
    indent_joins_lines(text, seq![LINE_BREAK]);
    if text.len() > 0 {
        lines_round_trip(text.drop_last());
        assert(text =~= text.drop_last().push(text.last()));
    }
}

/// How long a re-indented text is: each line break gives way to one
/// separator.
pub proof fn indent_len(text: Seq<u8>, separator: Seq<u8>)
    ensures
        indent(text, separator).len() == text.len() - count_breaks(text) + count_breaks(text)
            * separator.len(),
        count_breaks(text) <= text.len(),
    decreases text.len(),
{
    if text.len() > 0 {
        let front = text.drop_last();
        indent_len(front, separator);
        assert(indent(text, separator).len() == indent(front, separator).len() + indent_byte(
            text.last(),
            separator,
        ).len());
        assert((count_breaks(front) + 1) * separator.len() == count_breaks(front)
            * separator.len() + separator.len()) by (nonlinear_arith);
    } else {
        assert(0 * separator.len() == 0);
    }
}

} // verus!
