//! What a rendered line is: a bracketed header of fields, the message, and
//! the line ending.

use crate::ascii::{pad_right, spaces, CLOSE_BRACKET, LINE_BREAK, OPEN_BRACKET, SPACE};
use crate::indent::{
    count_breaks, indent, indent_joins_lines, indent_len, join, lines, lines_round_trip,
    lines_shape, separator,
};
use crate::policy::EnvView;
use crate::record::{Level, RecordView, StyleView};
use vstd::prelude::*;

verus! {

/// The width that a level is padded to.
pub const LEVEL_WIDTH: usize = 5;

/// What is written for one header field: the opening bracket before the
/// first field, a blank before any later one, then the value.
pub open spec fn header_field(started: bool, value: Seq<u8>) -> Seq<u8> {
    seq![if started { SPACE } else { OPEN_BRACKET }] + value
}

/// What ends the header: a closing bracket and a blank where any field was
/// written, nothing where none was.
pub open spec fn header_close(started: bool) -> Seq<u8> {
    if started {
        seq![CLOSE_BRACKET, SPACE]
    } else {
        Seq::empty()
    }
}

/// What writing `fields` one after the other appends, given whether a
/// header field was written before them.
pub open spec fn fields_text(started: bool, fields: Seq<Seq<u8>>) -> Seq<u8>
    decreases fields.len(),
{
    if fields.len() == 0 {
        Seq::empty()
    } else {
        fields_text(started, fields.drop_last()) + header_field(
            started || fields.len() > 1,
            fields.last(),
        )
    }
}

/// What writing `fields` and closing the header appends, given whether a
/// header field was written before them.
pub open spec fn header_from(started: bool, fields: Seq<Seq<u8>>) -> Seq<u8> {
    fields_text(started, fields) + header_close(started || fields.len() > 0)
}

/// The whole header for `fields`: the fields in brackets with one blank
/// between each two, then a blank; nothing at all without fields.
pub open spec fn header(fields: Seq<Seq<u8>>) -> Seq<u8> {
    if fields.len() == 0 {
        Seq::empty()
    } else {
        seq![OPEN_BRACKET] + join(fields, seq![SPACE]) + seq![CLOSE_BRACKET, SPACE]
    }
}

/// The level as a header field: its name, padded with blanks to
/// [`LEVEL_WIDTH`], between the markers of the style.
pub open spec fn level_field(style: StyleView, level: Level) -> Seq<u8> {
    style.start + pad_right(level.label(), LEVEL_WIDTH as nat) + style.reset
}

/// The level, where the policy shows it.
pub open spec fn level_fields(env: EnvView, style: StyleView, record: RecordView) -> Seq<Seq<u8>> {
    if env.level {
        seq![level_field(style, record.level)]
    } else {
        Seq::empty()
    }
}

/// The module path, where the policy shows it and the event has one.
pub open spec fn module_fields(env: EnvView, record: RecordView) -> Seq<Seq<u8>> {
    match record.module {
        Some(path) if env.show_module_path => seq![path],
        _ => Seq::empty(),
    }
}

/// The target, where the policy shows it and it is not empty.
pub open spec fn target_fields(env: EnvView, record: RecordView) -> Seq<Seq<u8>> {
    if env.target && record.target.len() > 0 {
        seq![record.target]
    } else {
        Seq::empty()
    }
}

/// What follows the timestamp in the header, in order.
pub open spec fn event_fields(env: EnvView, style: StyleView, record: RecordView) -> Seq<Seq<u8>> {
    level_fields(env, style, record) + module_fields(env, record) + target_fields(env, record)
}

/// All fields of the header, in order: the timestamp always comes first.
pub open spec fn header_fields(
    env: EnvView,
    timestamp: Seq<u8>,
    style: StyleView,
    record: RecordView,
) -> Seq<Seq<u8>> {
    seq![timestamp] + event_fields(env, style, record)
}

/// The message as it is written: unchanged without an indentation, and
/// else with each line break replaced by the line ending and the
/// indentation.
pub open spec fn body(env: EnvView, args: Seq<u8>) -> Seq<u8> {
    match env.indent {
        None => args,
        Some(width) => indent(args, separator(env.suffix, width)),
    }
}

/// What follows the header: the message and the line ending.
pub open spec fn tail(env: EnvView, record: RecordView) -> Seq<u8> {
    body(env, record.args) + env.suffix
}

/// The rendered line.
pub open spec fn line(env: EnvView, timestamp: Seq<u8>, style: StyleView, record: RecordView) -> Seq<
    u8,
> {
    header(header_fields(env, timestamp, style, record)) + tail(env, record)
}

/// Writing no field appends nothing, and writing one field appends that
/// field.
pub proof fn fields_text_short(started: bool, value: Seq<u8>)
    ensures
        fields_text(started, Seq::empty()) == Seq::<u8>::empty(),
        fields_text(started, seq![value]) == header_field(started, value),
{
    let one = seq![value];
    assert(one.drop_last() =~= Seq::<Seq<u8>>::empty());
    assert(fields_text(started, one) =~= fields_text(started, one.drop_last()) + header_field(
        started,
        value,
    ));
}

/// Fields written in two runs come out as they do written in one.
pub proof fn fields_text_concat(started: bool, first: Seq<Seq<u8>>, second: Seq<Seq<u8>>)
    ensures
        fields_text(started, first + second) == fields_text(started, first) + fields_text(
            started || first.len() > 0,
            second,
        ),
    decreases second.len(),
{
    if second.len() == 0 {
        assert(first + second =~= first);
    } else {
        fields_text_concat(started, first, second.drop_last());
        assert((first + second).drop_last() =~= first + second.drop_last());
        assert((first + second).last() == second.last());
    }
}

/// A renderer that has written no field yet writes the header as it is
/// defined: the state it keeps puts the bracket before the first field and
/// a blank before each later one.
pub proof fn header_from_start(fields: Seq<Seq<u8>>)
    ensures
        header_from(false, fields) == header(fields),
        fields.len() > 0 ==> fields_text(false, fields) == seq![OPEN_BRACKET] + join(
            fields,
            seq![SPACE],
        ),
    decreases fields.len(),
{
    if fields.len() == 0 {
    } else if fields.len() == 1 {
        fields_text_short(false, fields[0]);
        assert(fields =~= seq![fields[0]]);
        assert(fields_text(false, fields) =~= seq![OPEN_BRACKET] + fields[0]);
    } else {
        header_from_start(fields.drop_last());
        assert(fields_text(false, fields) =~= seq![OPEN_BRACKET] + join(fields, seq![SPACE]));
    }
}

/// Where the brackets stand. Without fields there is no header at all, so
/// no bracket. One field stands alone between the brackets. With more, each
/// further field follows the one before it after a single blank, and the
/// closing bracket follows the last field directly. A blank comes after the
/// closing bracket.
pub proof fn header_brackets(fields: Seq<Seq<u8>>)
    ensures
        fields.len() == 0 ==> header(fields) == Seq::<u8>::empty(),
        fields.len() == 1 ==> header(fields) == seq![OPEN_BRACKET] + fields[0] + seq![
            CLOSE_BRACKET,
            SPACE,
        ],
        fields.len() > 1 ==> header(fields) == seq![OPEN_BRACKET] + join(
            fields.drop_last(),
            seq![SPACE],
        ) + seq![SPACE] + fields.last() + seq![CLOSE_BRACKET, SPACE],
{
    if fields.len() == 0 {
        assert(header(fields) =~= Seq::<u8>::empty());
    } else if fields.len() == 1 {
    } else {
        assert(header(fields) =~= seq![OPEN_BRACKET] + join(fields.drop_last(), seq![SPACE])
            + seq![SPACE] + fields.last() + seq![CLOSE_BRACKET, SPACE]);
    }
}

/// How a message is set in. Without an indentation it is written byte for
/// byte. With one, its lines are written in order with the line ending and
/// the blanks of the indentation between each two of them: once for every
/// line break of the message, and nowhere else. Taking each of these away
/// again for a line break gives the message back.
pub proof fn body_indentation(env: EnvView, args: Seq<u8>)
    ensures
        env.indent is None ==> body(env, args) == args,
        env.indent matches Some(width) ==> {
            &&& body(env, args) == join(lines(args), env.suffix + spaces(width))
            &&& lines(args).len() == count_breaks(args) + 1
            &&& forall|i: int, j: int|
                0 <= i < lines(args).len() && 0 <= j < lines(args)[i].len() ==> lines(
                    args,
                )[i][j] != LINE_BREAK
            &&& join(lines(args), seq![LINE_BREAK]) == args
            &&& body(env, args).len() == args.len() - count_breaks(args) + count_breaks(args) * (
            env.suffix.len() + width)
        },
{
    if let Some(width) = env.indent {
        let between = separator(env.suffix, width);
        indent_joins_lines(args, between);
        lines_shape(args);
        lines_round_trip(args);
        indent_len(args, between);
    }
}

/// Hiding the level takes exactly the level out of the line: the field
/// after the timestamp goes, and every other field, the message and the
/// line ending stay as they were.
pub proof fn hiding_level(env: EnvView, timestamp: Seq<u8>, style: StyleView, record: RecordView)
    requires
        env.level,
    ensures
        ({
            let hidden = env.without_level();
            let shown = header_fields(env, timestamp, style, record);
            &&& shown[1] == level_field(style, record.level)
            &&& header_fields(hidden, timestamp, style, record) == shown.remove(1)
            &&& line(hidden, timestamp, style, record) == header(shown.remove(1)) + tail(env, record)
        }),
{
    let hidden = env.without_level();
    let shown = header_fields(env, timestamp, style, record);
    assert(header_fields(hidden, timestamp, style, record) =~= shown.remove(1));
}

/// Hiding the module path takes exactly the module path out of the line,
/// where the event has one: every other field, the message and the line
/// ending stay as they were.
pub proof fn hiding_module_path(
    env: EnvView,
    timestamp: Seq<u8>,
    style: StyleView,
    record: RecordView,
)
    requires
        env.show_module_path,
        record.module is Some,
    ensures
        ({
            let hidden = env.without_module_path();
            let shown = header_fields(env, timestamp, style, record);
            let at = level_fields(env, style, record).len() + 1int;
            &&& shown[at] == record.module->0
            &&& header_fields(hidden, timestamp, style, record) == shown.remove(at)
            &&& line(hidden, timestamp, style, record) == header(shown.remove(at)) + tail(
                env,
                record,
            )
        }),
{
    let hidden = env.without_module_path();
    let shown = header_fields(env, timestamp, style, record);
    let at = level_fields(env, style, record).len() + 1int;
    assert(header_fields(hidden, timestamp, style, record) =~= shown.remove(at));
}

/// Hiding the target takes exactly the target out of the line, where the
/// event has one: it was the last field, and every other field, the message
/// and the line ending stay as they were.
pub proof fn hiding_target(env: EnvView, timestamp: Seq<u8>, style: StyleView, record: RecordView)
    requires
        env.target,
        record.target.len() > 0,
    ensures
        ({
            let hidden = env.without_target();
            let shown = header_fields(env, timestamp, style, record);
            &&& shown.last() == record.target
            &&& header_fields(hidden, timestamp, style, record) == shown.drop_last()
            &&& line(hidden, timestamp, style, record) == header(shown.drop_last()) + tail(
                env,
                record,
            )
        }),
{
    let hidden = env.without_target();
    let shown = header_fields(env, timestamp, style, record);
    assert(header_fields(hidden, timestamp, style, record) =~= shown.drop_last());
}

/// A field that is hidden already, or that the event does not have, is not
/// in the line: hiding it changes nothing.
pub proof fn hiding_absent_field(
    env: EnvView,
    timestamp: Seq<u8>,
    style: StyleView,
    record: RecordView,
)
    ensures
        !env.level ==> line(env.without_level(), timestamp, style, record) == line(
            env,
            timestamp,
            style,
            record,
        ),
        !env.show_module_path || record.module is None ==> line(
            env.without_module_path(),
            timestamp,
            style,
            record,
        ) == line(env, timestamp, style, record),
        !env.target || record.target.len() == 0 ==> line(
            env.without_target(),
            timestamp,
            style,
            record,
        ) == line(env, timestamp, style, record),
{
    if !env.level {
        assert(env.without_level() == env);
    }
    if !env.show_module_path {
        assert(env.without_module_path() == env);
    }
    if !env.target {
        assert(env.without_target() == env);
    }
}

/// The three switches work each on its own: hiding a field twice is hiding
/// it once, and hiding two fields comes to the same in either order.
pub proof fn hiding_is_independent(env: EnvView)
    ensures
        env.without_level().without_level() == env.without_level(),
        env.without_module_path().without_module_path() == env.without_module_path(),
        env.without_target().without_target() == env.without_target(),
        env.without_level().without_target() == env.without_target().without_level(),
        env.without_level().without_module_path() == env.without_module_path().without_level(),
        env.without_target().without_module_path() == env.without_module_path().without_target(),
{
}

} // verus!
