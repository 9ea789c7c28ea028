//! Timestamps: the patterns a policy can choose from, the UTC offsets it can
//! hold, and the calls into `chrono` that read the clock and render it.

use crate::ascii::{is_digit, two_digits, COLON, DOT, MINUS, PLUS, SPACE};
use chrono::{DateTime, FixedOffset, Local, Offset, Utc};
use std::time::SystemTime;
use vstd::prelude::*;

verus! {

/// Date and time to the second, then the numeric UTC offset.
pub const DATETIME_FMT_SECOND: &'static str = "%Y-%m-%d %H:%M:%S %:z";

/// As [`DATETIME_FMT_SECOND`], with three fractional digits after the second.
pub const DATETIME_FMT_3F: &'static str = "%Y-%m-%d %H:%M:%S%.3f %:z";

/// As [`DATETIME_FMT_SECOND`], with six fractional digits after the second.
pub const DATETIME_FMT_6F: &'static str = "%Y-%m-%d %H:%M:%S%.6f %:z";

/// The fractional-second resolution asked of a timestamp.
#[derive(Clone, Copy, Debug, PartialEq, Eq)]
pub enum TimestampPrecision {
    /// Whole seconds.
    Seconds,
    /// Thousandths of a second.
    Millis,
    /// Millionths of a second.
    Micros,
    /// Billionths of a second; rendered like [`TimestampPrecision::Micros`].
    Nanos,
}

/// Whether `pattern` is one of the three patterns of this module.
pub open spec fn is_timestamp_pattern(pattern: Seq<char>) -> bool {
    pattern == DATETIME_FMT_SECOND@ || pattern == DATETIME_FMT_3F@ || pattern == DATETIME_FMT_6F@
}

/// The pattern that stands for a requested precision. An absent precision
/// means milliseconds, and nanoseconds share the microsecond pattern.
pub open spec fn precision_pattern(precision: Option<TimestampPrecision>) -> Seq<char> {
    match precision {
        Some(TimestampPrecision::Seconds) => DATETIME_FMT_SECOND@,
        Some(TimestampPrecision::Millis) | None => DATETIME_FMT_3F@,
        Some(TimestampPrecision::Micros) | Some(TimestampPrecision::Nanos) => DATETIME_FMT_6F@,
    }
}

/// How many fractional digits a timestamp pattern asks for.
pub open spec fn fraction_digits(pattern: Seq<char>) -> nat
    recommends
        is_timestamp_pattern(pattern),
{
    if pattern == DATETIME_FMT_SECOND@ {
        0
    } else if pattern == DATETIME_FMT_3F@ {
        3
    } else {
        6
    }
}

/// Whether `secs` seconds east of UTC is an offset that a timestamp can
/// carry: strictly less than a day either way.
pub open spec fn valid_offset(secs: int) -> bool {
    -86_400 < secs < 86_400
}

/// The offset a policy gets: the requested one where it is valid, and
/// `local` where it is not or where none was requested.
pub open spec fn resolved_offset(requested: Option<i32>, local: int) -> int {
    match requested {
        Some(value) if valid_offset(value as int) => value as int,
        _ => local,
    }
}

/// How a UTC offset of `secs` seconds reads at the end of a timestamp: a
/// sign, then hours and minutes as two digits each with a colon between
/// them, the seconds rounded to the nearest minute.
pub open spec fn offset_text(secs: int) -> Seq<u8>
    recommends
        valid_offset(secs),
{
    let minutes = ((if secs < 0 { -secs } else { secs }) + 30) / 60;
    seq![if secs < 0 { MINUS } else { PLUS }] + two_digits(minutes / 60) + seq![COLON] + two_digits(
        minutes % 60,
    )
}

/// Whether `text` is a fractional-second part of `digits` digits: nothing
/// at all for none, else a dot and then exactly that many digits.
pub open spec fn is_fraction(text: Seq<u8>, digits: nat) -> bool {
    if digits == 0 {
        text.len() == 0
    } else {
        &&& text.len() == digits + 1
        &&& text[0] == DOT
        &&& forall|i: int| 1 <= i <= digits ==> is_digit(#[trigger] text[i])
    }
}

/// A timestamp put together from its date-and-time part, its fractional
/// part and the offset it is given in.
pub open spec fn timestamp_text(clock: Seq<u8>, fraction: Seq<u8>, offset: int) -> Seq<u8> {
    clock + fraction + seq![SPACE] + offset_text(offset)
}

/// Whether `text` has the shape of a timestamp with `digits` fractional
/// digits at the offset `offset`: a date-and-time part without any dot, the
/// fraction, one blank, and the offset.
pub open spec fn is_timestamp_text(text: Seq<u8>, digits: nat, offset: int) -> bool {
    exists|clock: Seq<u8>, fraction: Seq<u8>|
        {
            &&& text == #[trigger] timestamp_text(clock, fraction, offset)
            &&& !clock.contains(DOT)
            &&& is_fraction(fraction, digits)
        }
}

/// Each precision gets the number of fractional digits it stands for:
/// none for seconds, three for milliseconds and for an absent precision,
/// six for microseconds and for nanoseconds alike.
pub proof fn precision_fraction_digits(precision: Option<TimestampPrecision>)
    ensures
        is_timestamp_pattern(precision_pattern(precision)),
        fraction_digits(precision_pattern(precision)) == (match precision {
            Some(TimestampPrecision::Seconds) => 0nat,
            Some(TimestampPrecision::Millis) | None => 3nat,
            Some(TimestampPrecision::Micros) | Some(TimestampPrecision::Nanos) => 6nat,
        }),
{
    reveal_strlit("%Y-%m-%d %H:%M:%S %:z");
    reveal_strlit("%Y-%m-%d %H:%M:%S%.3f %:z");
    reveal_strlit("%Y-%m-%d %H:%M:%S%.6f %:z");
    assert(DATETIME_FMT_SECOND@.len() == 21);
    assert(DATETIME_FMT_3F@.len() == 25 && DATETIME_FMT_3F@[19] == '3');
    assert(DATETIME_FMT_6F@.len() == 25 && DATETIME_FMT_6F@[19] == '6');
}

/// The offset text is six bytes, none of them a dot. For an offset of whole
/// minutes it shows that offset exactly: the sign, the hours and the
/// minutes.
pub proof fn offset_text_shape(secs: int)
    requires
        valid_offset(secs),
    ensures
        offset_text(secs).len() == 6,
        forall|i: int| 0 <= i < 6 ==> offset_text(secs)[i] != DOT,
        secs % 60 == 0 ==> offset_text(secs) == seq![if secs < 0 { MINUS } else { PLUS }]
            + two_digits((if secs < 0 { -secs } else { secs }) / 3600) + seq![COLON] + two_digits(
            (if secs < 0 { -secs } else { secs }) / 60 % 60,
        ),
{
    let size = if secs < 0 { -secs } else { secs };
    let minutes = (size + 30) / 60;
    assert(0 <= minutes / 60 <= 24 && 0 <= minutes % 60 < 60);
    if secs % 60 == 0 {
        assert(minutes == size / 60);
        assert(minutes / 60 == size / 3600);
    }
}

/// A timestamp ends in a blank and the text of its offset.
pub proof fn timestamp_offset_suffix(text: Seq<u8>, digits: nat, offset: int)
    requires
        valid_offset(offset),
        is_timestamp_text(text, digits, offset),
    ensures
        text.len() >= 7,
        text[text.len() - 7] == SPACE,
        text.subrange(text.len() - 6, text.len() as int) == offset_text(offset),
{
    offset_text_shape(offset);
    let (clock, fraction) = choose|clock: Seq<u8>, fraction: Seq<u8>|
        {
            &&& text == #[trigger] timestamp_text(clock, fraction, offset)
            &&& !clock.contains(DOT)
            &&& is_fraction(fraction, digits)
        };
    assert(text.subrange(text.len() - 6, text.len() as int) =~= offset_text(offset));
}

/// The fractional digits of a timestamp. Where it has none, no dot occurs
/// in it. Where it has some, exactly one dot occurs in it, and between that
/// dot and the blank before the offset stand the fractional digits: as many
/// as were asked for, and digits all.
pub proof fn timestamp_fraction(text: Seq<u8>, digits: nat, offset: int)
    requires
        valid_offset(offset),
        is_timestamp_text(text, digits, offset),
    ensures
        digits == 0 ==> !text.contains(DOT),
        digits > 0 ==> {
            let dot = text.len() - 8 - digits;
            &&& 0 <= dot
            &&& text[dot] == DOT
            &&& forall|i: int| 0 <= i < text.len() && i != dot ==> text[i] != DOT
            &&& forall|i: int| dot < i < text.len() - 7 ==> is_digit(#[trigger] text[i])
        },
{
    offset_text_shape(offset);
    let (clock, fraction) = choose|clock: Seq<u8>, fraction: Seq<u8>|
        {
            &&& text == #[trigger] timestamp_text(clock, fraction, offset)
            &&& !clock.contains(DOT)
            &&& is_fraction(fraction, digits)
        };
    let tail = offset_text(offset);
    let start = clock.len() + fraction.len();
    assert forall|i: int| 0 <= i < text.len() implies text[i] == (if i < clock.len() {
        clock[i]
    } else if i < start {
        fraction[i - clock.len()]
    } else if i == start {
        SPACE
    } else {
        tail[i - start - 1]
    }) by {}
    assert forall|i: int| 0 <= i < clock.len() implies clock[i] != DOT by {
        assert(clock.contains(clock[i]));
    }
    if digits == 0 {
        assert forall|i: int| 0 <= i < text.len() implies text[i] != DOT by {}
    } else {
        let dot = text.len() - 8 - digits;
        assert(dot == clock.len());
        assert forall|i: int| dot < i < text.len() - 7 implies is_digit(#[trigger] text[i]) by {
            assert(is_digit(fraction[i - clock.len()]));
        }
        assert forall|i: int| 0 <= i < text.len() && i != dot implies text[i] != DOT by {
            if clock.len() < i < start {
                assert(is_digit(fraction[i - clock.len()]));
            }
        }
    }
}

/// The pattern for a requested precision.
pub fn pattern_for(precision: Option<TimestampPrecision>) -> (pattern: &'static str)
    ensures
        pattern@ == precision_pattern(precision),
        is_timestamp_pattern(pattern@),
{
    match precision {
        Some(TimestampPrecision::Seconds) => DATETIME_FMT_SECOND,
        Some(TimestampPrecision::Millis) | None => DATETIME_FMT_3F,
        Some(TimestampPrecision::Micros) | Some(TimestampPrecision::Nanos) => DATETIME_FMT_6F,
    }
}

/// The offset to use where `requested` was asked for and `local` is the
/// machine's own: the requested one if it is valid, the local one if it is
/// not or if none was asked for.
pub fn resolve_offset(requested: Option<i32>, local: i32) -> (secs: i32)
    requires
        valid_offset(local as int),
    ensures
        valid_offset(secs as int),
        secs == resolved_offset(requested, local as int),
{
    match requested {
        Some(value) => match fixed_offset_east(value) {
            Some(secs) => secs,
            None => local,
        },
        None => local,
    }
}

/// `chrono::FixedOffset::east_opt`, with the offset it makes read back by
/// `FixedOffset::local_minus_utc`. It accepts exactly the offsets strictly
/// between minus and plus 86 400 seconds and keeps the value it was given.
#[verifier::external_body]
pub(crate) fn fixed_offset_east(secs: i32) -> (offset: Option<i32>)
    ensures
        offset == (if valid_offset(secs as int) {
            Some(secs)
        } else {
            None::<i32>
        }),
{
    match FixedOffset::east_opt(secs) {
        Some(offset) => Some(offset.local_minus_utc()),
        None => None,
    }
}

/// The machine's UTC offset at this moment, in seconds east: from
/// `chrono::Local::now`, `DateTime::offset`, `Offset::fix` and
/// `FixedOffset::local_minus_utc`. It depends on the clock and on the
/// configured time zone; whatever they are, the value is that of a
/// `FixedOffset`, which `chrono` only makes within a day either way. Where
/// `chrono` cannot read the clock or the time zone, it panics.
#[verifier::external_body]
pub(crate) fn local_offset() -> (secs: i32)
    ensures
        valid_offset(secs as int),
{
    Local::now().offset().fix().local_minus_utc()
}

/// The current time rendered at `offset` seconds east of UTC: the system
/// clock through `DateTime::<Utc>::from`, then `DateTime::with_timezone`
/// and `DateTime::format` of `chrono` with one of the three patterns. The
/// offset is handed over as the `FixedOffset` that `east_opt` makes of it.
///
/// The text changes with every call. What `chrono` documents of its
/// specifiers holds of each one: `%Y-%m-%d %H:%M:%S` yields digits, dashes,
/// a blank and colons (a sign too for years beyond four digits), `%.3f` and
/// `%.6f` a dot and exactly three or six digits, and `%:z` the offset as
/// sign, hours, colon, minutes. A system clock outside the years that
/// `chrono` can represent makes the conversion panic, as it does in `chrono`.
#[verifier::external_body]
pub(crate) fn current_timestamp(offset: i32, pattern: &str) -> (text: Vec<u8>)
    requires
        valid_offset(offset as int),
        is_timestamp_pattern(pattern@),
    ensures
        is_timestamp_text(text@, fraction_digits(pattern@), offset as int),
{
    let zone = FixedOffset::east_opt(offset).unwrap();
    let now = DateTime::<Utc>::from(SystemTime::now());
    now.with_timezone(&zone).format(pattern).to_string().into_bytes()
}

} // verus!
