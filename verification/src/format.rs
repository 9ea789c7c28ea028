//! The renderer: one log event, written as one line.

use crate::ascii::{
    pad_right, push_padded, push_spaces, spaces, CLOSE_BRACKET, LINE_BREAK, OPEN_BRACKET, SPACE,
};
use crate::indent::{indent, indent_concat, indent_without_breaks, separator};
use crate::layout::{
    body, fields_text, fields_text_concat, fields_text_short, header_close, header_field,
    header_fields, header_from, header_from_start, level_field, level_fields, line,
    module_fields, tail, target_fields, LEVEL_WIDTH,
};
use crate::policy::TimeZoneFormatEnv;
use crate::record::{Record, Style};
use crate::timestamp::{current_timestamp, fraction_digits, is_timestamp_text};
use vstd::prelude::*;
use vstd::string::StringSliceAdditionalSpecFns;

verus! {

/// A value between the markers of a style.
pub struct StyledValue<'a> {
    pub style: Style<'a>,
    pub value: &'a str,
}

impl<'a> StyledValue<'a> {
    /// Appends to `f` the start marker, the value padded with blanks to
    /// `width` bytes, and the reset marker. The value itself is written as
    /// it is.
    pub fn fmt(&self, f: &mut Vec<u8>, width: usize)
        ensures
            final(f)@ == old(f)@ + self.style@.start + pad_right(
                self.value.spec_bytes(),
                width as nat,
            ) + self.style@.reset,
    {
        f.extend_from_slice(self.style.start.as_bytes());
        assert(f@ == old(f)@ + self.style@.start);
        push_padded(f, self.value.as_bytes(), width);
        f.extend_from_slice(self.style.reset.as_bytes());
        assert(f@ == old(f)@ + self.style@.start + pad_right(
            self.value.spec_bytes(),
            width as nat,
        ) + self.style@.reset);
    }
}

/// Renders one log event under a policy. It holds the line as far as it is
/// written and knows whether a header field was written yet.
pub struct TimeZoneFormat<'a> {
    env: &'a TimeZoneFormatEnv,
    buf: Vec<u8>,
    written_header_value: bool,
}

/// Sets the later lines of a message in: what it is handed goes to the
/// renderer with each line break replaced by the line ending and
/// `indent_count` blanks.
struct IndentWrapper<'a, 'b> {
    fmt: &'a mut TimeZoneFormat<'b>,
    indent_count: usize,
}

impl<'a, 'b> IndentWrapper<'a, 'b> {
    /// Writes the line ending and the indentation.
    fn write_separator(&mut self)
        ensures
            final(self).fmt.buf@ == old(self).fmt.buf@ + separator(
                old(self).fmt.env@.suffix,
                old(self).indent_count as nat,
            ),
            final(self).fmt.env == old(self).fmt.env,
            final(self).fmt.written_header_value == old(self).fmt.written_header_value,
            final(self).indent_count == old(self).indent_count,
            *final(final(self).fmt) == *final(old(self).fmt),
    {
        self.fmt.buf.extend_from_slice(self.fmt.env.suffix.as_bytes());
        assert(self.fmt.buf@ == old(self).fmt.buf@ + old(self).fmt.env@.suffix);
        push_spaces(&mut self.fmt.buf, self.indent_count);
        assert(self.fmt.buf@ == old(self).fmt.buf@ + (old(self).fmt.env@.suffix + spaces(
            self.indent_count as nat,
        )));
    }

    /// Writes `buf`, whatever part of a message it is, and returns how many
    /// of its bytes were taken: all of them.
    fn write(&mut self, buf: &[u8]) -> (taken: usize)
        ensures
            taken == buf@.len(),
            final(self).fmt.buf@ == old(self).fmt.buf@ + indent(
                buf@,
                separator(old(self).fmt.env@.suffix, old(self).indent_count as nat),
            ),
            final(self).fmt.env == old(self).fmt.env,
            final(self).fmt.written_header_value == old(self).fmt.written_header_value,
            final(self).indent_count == old(self).indent_count,
            *final(final(self).fmt) == *final(old(self).fmt),
    {
        let ghost between = separator(self.fmt.env@.suffix, self.indent_count as nat);
        let mut start: usize = 0;
        let mut at: usize = 0;
        proof {
            assert(buf@.take(0) =~= Seq::<u8>::empty());
            assert(self.fmt.buf@ =~= old(self).fmt.buf@ + indent(buf@.take(0), between));
        }
        while at < buf.len()
            invariant
                start <= at <= buf@.len(),
                between == separator(old(self).fmt.env@.suffix, old(self).indent_count as nat),
                forall|i: int| start <= i < at ==> buf@[i] != LINE_BREAK,
                self.fmt.buf@ == old(self).fmt.buf@ + indent(buf@.take(start as int), between),
                self.fmt.env == old(self).fmt.env,
                self.fmt.written_header_value == old(self).fmt.written_header_value,
                self.indent_count == old(self).indent_count,
                *final(self.fmt) == *final(old(self).fmt),
            decreases buf@.len() - at,
        {
            if buf[at] == LINE_BREAK {
                let ghost before = self.fmt.buf@;
                self.fmt.buf.extend_from_slice(&buf[start..at]);
                self.write_separator();
                proof {
                    let done = buf@.take(start as int);
                    let run = buf@.subrange(start as int, at as int);
                    let upto = buf@.take(at as int + 1);
                    assert(self.fmt.buf@ == before + run + between);
                    indent_without_breaks(run, between);
                    indent_concat(done, run, between);
                    assert(done + run =~= buf@.take(at as int));
                    assert(upto.drop_last() =~= buf@.take(at as int));
                    assert(upto.last() == LINE_BREAK);
                    assert(self.fmt.buf@ =~= old(self).fmt.buf@ + indent(upto, between));
                }
                start = at + 1;
            }
            at = at + 1;
        }
        let ghost before = self.fmt.buf@;
        self.fmt.buf.extend_from_slice(&buf[start..buf.len()]);
        proof {
            let done = buf@.take(start as int);
            let run = buf@.subrange(start as int, buf@.len() as int);
            assert(self.fmt.buf@ == before + run);
            indent_without_breaks(run, between);
            indent_concat(done, run, between);
            assert(done + run =~= buf@);
            assert(self.fmt.buf@ =~= old(self).fmt.buf@ + indent(buf@, between));
        }
        buf.len()
    }
}

impl<'a> TimeZoneFormat<'a> {
    /// The policy the renderer works under.
    pub closed spec fn env(&self) -> TimeZoneFormatEnv {
        *self.env
    }

    /// What the renderer holds: the bytes it was made with and what it
    /// wrote after them.
    pub closed spec fn written(&self) -> Seq<u8> {
        self.buf@
    }

    /// Whether a header field was written yet.
    pub closed spec fn header_started(&self) -> bool {
        self.written_header_value
    }

    /// A renderer under `env` that writes after what `buf` holds. No header
    /// field is written yet.
    pub fn new(buf: Vec<u8>, env: &'a TimeZoneFormatEnv) -> (fmt: Self)
        ensures
            fmt.env() == *env,
            fmt.written() == buf@,
            !fmt.header_started(),
    {
        Self { env, buf, written_header_value: false }
    }

    /// Hands out what the renderer holds.
    pub fn into_bytes(self) -> (out: Vec<u8>)
        ensures
            out@ == self.written(),
    {
        self.buf
    }

    /// Writes one line for `record`, with the current time as timestamp and
    /// the level between the markers of `style`, and hands out the result.
    ///
    /// The timestamp is read from the clock when the line is written, not
    /// when the event was made. It has the fractional digits that the
    /// pattern of the policy asks for and ends in the offset of the policy.
    /// The policy has to be one that timestamps can be rendered under, as
    /// every policy is that [`TimeZoneFormatEnv::new`] made.
    pub fn write(self, record: &Record, style: &Style) -> (out: Vec<u8>)
        requires
            self.env()@.wf(),
        ensures
            exists|timestamp: Seq<u8>|
                {
                    &&& is_timestamp_text(
                        timestamp,
                        fraction_digits(self.env()@.datetime_fmt),
                        self.env()@.offset,
                    )
                    &&& out@ == self.written() + #[trigger] header_from(
                        self.header_started(),
                        header_fields(self.env()@, timestamp, style@, record@),
                    ) + tail(self.env()@, record@)
                    &&& !self.header_started() ==> out@ == self.written() + line(
                        self.env()@,
                        timestamp,
                        style@,
                        record@,
                    )
                },
    {
        let timestamp = current_timestamp(self.env.offset, self.env.datetime_fmt);
        self.write_with_timestamp(timestamp.as_slice(), record, style)
    }

    /// Writes one line for `record` with `timestamp` as its first header
    /// field, and hands out the result: the header, the message, the line
    /// ending.
    pub fn write_with_timestamp(self, timestamp: &[u8], record: &Record, style: &Style) -> (out:
        Vec<u8>)
        ensures
            out@ == self.written() + header_from(
                self.header_started(),
                header_fields(self.env()@, timestamp@, style@, record@),
            ) + tail(self.env()@, record@),
            !self.header_started() ==> out@ == self.written() + line(
                self.env()@,
                timestamp@,
                style@,
                record@,
            ),
    {
        let mut this = self;
        this.write_header(timestamp, record, style);
        this.write_args(record);
        this.buf.extend_from_slice(this.env.suffix.as_bytes());
        proof {
            let fields = header_fields(self.env()@, timestamp@, style@, record@);
            assert(this.buf@ =~= self.written() + header_from(self.header_started(), fields)
                + tail(self.env()@, record@));
            if !self.header_started() {
                header_from_start(fields);
            }
        }
        this.buf
    }

    /// Writes the header for `record`: the timestamp, then the fields that
    /// the policy shows, then the closing bracket and a blank.
    pub fn write_header(&mut self, timestamp: &[u8], record: &Record, style: &Style)
        ensures
            final(self).written() == old(self).written() + header_from(
                old(self).header_started(),
                header_fields(old(self).env()@, timestamp@, style@, record@),
            ),
            final(self).header_started(),
            final(self).env() == old(self).env(),
    {
        let ghost env = self.env()@;
        let ghost started = self.header_started();
        let ghost before = self.written();
        let ghost stamp = seq![timestamp@];
        let ghost levels = level_fields(env, style@, record@);
        let ghost modules = module_fields(env, record@);
        let ghost targets = target_fields(env, record@);
        self.write_timestamp(timestamp);
        let ghost first = self.written();
        self.write_level(record, style);
        let ghost second = self.written();
        self.write_module_path(record);
        let ghost third = self.written();
        self.write_target(record);
        let ghost fourth = self.written();
        self.finish_header();
        proof {
            let fields = header_fields(env, timestamp@, style@, record@);
            fields_text_short(started, timestamp@);
            fields_text_concat(started, stamp, levels);
            fields_text_concat(started, stamp + levels, modules);
            fields_text_concat(started, stamp + levels + modules, targets);
            assert(fields =~= stamp + levels + modules + targets);
            assert(first == before + fields_text(started, stamp));
            assert(second == first + fields_text(true, levels));
            assert(third == second + fields_text(true, modules));
            assert(fourth == third + fields_text(true, targets));
            assert(fourth =~= before + fields_text(started, fields));
            assert(self.written() == fourth + header_close(true));
            assert(self.written() =~= before + header_from(started, fields));
        }
    }

    /// The text of a bracket as it is written: brackets take no style.
    fn subtle_style(&self, text: u8) -> (styled: u8)
        ensures
            styled == text,
    {
        text
    }

    /// Writes `value` as the next header field: after the opening bracket
    /// if it is the first field, after a blank if it is not.
    pub fn write_header_value(&mut self, value: &[u8])
        ensures
            final(self).written() == old(self).written() + header_field(
                old(self).header_started(),
                value@,
            ),
            final(self).header_started(),
            final(self).env() == old(self).env(),
    {
        if !self.written_header_value {
            self.written_header_value = true;
            let open_brace = self.subtle_style(OPEN_BRACKET);
            self.buf.push(open_brace);
        } else {
            self.buf.push(SPACE);
        }
        self.buf.extend_from_slice(value);
        assert(self.buf@ =~= old(self).buf@ + header_field(
            old(self).written_header_value,
            value@,
        ));
    }

    /// Writes the level of `record` between the markers of `style`, padded
    /// to five bytes, where the policy shows the level.
    pub fn write_level(&mut self, record: &Record, style: &Style)
        ensures
            final(self).written() == old(self).written() + fields_text(
                old(self).header_started(),
                level_fields(old(self).env()@, style@, record@),
            ),
            final(self).header_started() == (old(self).header_started() || old(self).env()@.level),
            final(self).env() == old(self).env(),
    {
        if !self.env.level {
            assert(self.buf@ =~= old(self).buf@ + Seq::<u8>::empty());
            return ;
        }
        let level = StyledValue { style: *style, value: record.level.as_str() };
        let mut field: Vec<u8> = Vec::new();
        level.fmt(&mut field, LEVEL_WIDTH);
        assert(field@ =~= level_field(style@, record@.level));
        self.write_header_value(field.as_slice());
        proof {
            fields_text_short(old(self).header_started(), field@);
        }
    }

    /// Writes `timestamp` as a header field.
    pub fn write_timestamp(&mut self, timestamp: &[u8])
        ensures
            final(self).written() == old(self).written() + header_field(
                old(self).header_started(),
                timestamp@,
            ),
            final(self).header_started(),
            final(self).env() == old(self).env(),
    {
        self.write_header_value(timestamp)
    }

    /// Writes the module path of `record`, where the policy shows it and
    /// the record has one.
    pub fn write_module_path(&mut self, record: &Record)
        ensures
            final(self).written() == old(self).written() + fields_text(
                old(self).header_started(),
                module_fields(old(self).env()@, record@),
            ),
            final(self).header_started() == (old(self).header_started() || (old(
                self,
            ).env()@.show_module_path && record@.module is Some)),
            final(self).env() == old(self).env(),
    {
        if !self.env.show_module_path {
            assert(self.buf@ =~= old(self).buf@ + Seq::<u8>::empty());
            return ;
        }
        if let Some(path) = record.module {
            self.write_header_value(path.as_bytes());
            proof {
                fields_text_short(old(self).header_started(), path.spec_bytes());
            }
        } else {
            assert(self.buf@ =~= old(self).buf@ + Seq::<u8>::empty());
        }
    }

    /// Writes the target of `record`, where the policy shows it and it is
    /// not empty.
    pub fn write_target(&mut self, record: &Record)
        ensures
            final(self).written() == old(self).written() + fields_text(
                old(self).header_started(),
                target_fields(old(self).env()@, record@),
            ),
            final(self).header_started() == (old(self).header_started() || (old(
                self,
            ).env()@.target && record@.target.len() > 0)),
            final(self).env() == old(self).env(),
    {
        if !self.env.target {
            assert(self.buf@ =~= old(self).buf@ + Seq::<u8>::empty());
            return ;
        }
        let target = record.target.as_bytes();
        if target.len() == 0 {
            assert(self.buf@ =~= old(self).buf@ + Seq::<u8>::empty());
        } else {
            self.write_header_value(target);
            proof {
                fields_text_short(old(self).header_started(), target@);
            }
        }
    }

    /// Closes the header: a closing bracket and a blank where any field
    /// was written, nothing where none was.
    pub fn finish_header(&mut self)
        ensures
            final(self).written() == old(self).written() + header_close(
                old(self).header_started(),
            ),
            final(self).header_started() == old(self).header_started(),
            final(self).env() == old(self).env(),
    {
        if self.written_header_value {
            let close_brace = self.subtle_style(CLOSE_BRACKET);
            self.buf.push(close_brace);
            self.buf.push(SPACE);
            assert(self.buf@ =~= old(self).buf@ + seq![CLOSE_BRACKET, SPACE]);
        } else {
            assert(self.buf@ =~= old(self).buf@ + Seq::<u8>::empty());
        }
    }

    /// Writes the message of `record`: as it is where the policy asks for
    /// no indentation, and else with the line ending and the indentation in
    /// place of each of its line breaks.
    pub fn write_args(&mut self, record: &Record)
        ensures
            final(self).written() == old(self).written() + body(old(self).env()@, record@.args),
            final(self).header_started() == old(self).header_started(),
            final(self).env() == old(self).env(),
    {
        match self.env.indent {
            None => {
                self.buf.extend_from_slice(record.args.as_bytes());
            },
            Some(indent_count) => {
                let mut wrapper = IndentWrapper { fmt: self, indent_count };
                wrapper.write(record.args.as_bytes());
            },
        }
    }
}

} // verus!
