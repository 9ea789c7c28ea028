//! The formatting policy: what a rendered line shows and how.

use crate::ascii::LINE_BREAK;
use crate::timestamp::{
    is_timestamp_pattern, local_offset, pattern_for, precision_pattern, resolve_offset,
    resolved_offset, valid_offset, TimestampPrecision,
};
use vstd::prelude::*;
use vstd::string::StringSliceAdditionalSpecFns;

verus! {

/// How log lines are rendered. A policy is settled once and then only
/// read, whoever renders with it.
#[derive(Clone, Copy, Debug)]
pub struct TimeZoneFormatEnv {
    /// The pattern timestamps are rendered with: one of the three of
    /// [`crate::timestamp`].
    pub datetime_fmt: &'static str,
    /// The UTC offset timestamps are given in, as seconds east of UTC.
    pub offset: i32,
    /// Whether the header shows the module an event came from.
    pub show_module_path: bool,
    /// Whether the header shows the target of an event.
    pub target: bool,
    /// Whether the header shows the level of an event.
    pub level: bool,
    /// How many blanks the later lines of a message are set in by; `None`
    /// leaves the message as it is.
    pub indent: Option<usize>,
    /// What ends a line.
    pub suffix: &'static str,
}

/// A [`TimeZoneFormatEnv`] as the values that decide a rendered line.
pub struct EnvView {
    pub datetime_fmt: Seq<char>,
    pub offset: int,
    pub show_module_path: bool,
    pub target: bool,
    pub level: bool,
    pub indent: Option<nat>,
    pub suffix: Seq<u8>,
}

impl View for TimeZoneFormatEnv {
    type V = EnvView;

    open spec fn view(&self) -> EnvView {
        EnvView {
            datetime_fmt: self.datetime_fmt@,
            offset: self.offset as int,
            show_module_path: self.show_module_path,
            target: self.target,
            level: self.level,
            indent: match self.indent {
                Some(width) => Some(width as nat),
                None => None,
            },
            suffix: self.suffix.spec_bytes(),
        }
    }
}

impl EnvView {
    /// Whether timestamps can be rendered under this policy: its offset is
    /// one that a timestamp can carry and its pattern is one of the three.
    pub open spec fn wf(self) -> bool {
        valid_offset(self.offset) && is_timestamp_pattern(self.datetime_fmt)
    }

    /// This policy with the level hidden.
    pub open spec fn without_level(self) -> EnvView {
        EnvView { level: false, ..self }
    }

    /// This policy with the module path hidden.
    pub open spec fn without_module_path(self) -> EnvView {
        EnvView { show_module_path: false, ..self }
    }

    /// This policy with the target hidden.
    pub open spec fn without_target(self) -> EnvView {
        EnvView { target: false, ..self }
    }
}

/// The policy that [`TimeZoneFormatEnv::new`] builds, given the offset that
/// it settled on.
pub open spec fn initial_policy(offset: int, precision: Option<TimestampPrecision>) -> EnvView {
    EnvView {
        datetime_fmt: precision_pattern(precision),
        offset,
        show_module_path: false,
        target: true,
        level: true,
        indent: Some(4nat),
        suffix: seq![LINE_BREAK],
    }
}

impl TimeZoneFormatEnv {
    /// A policy for timestamps at `offset_value` seconds east of UTC with
    /// the given precision: level and target shown, module path hidden,
    /// later message lines set in by four blanks, lines ended by a line
    /// break.
    ///
    /// An offset that is absent or not valid is replaced, without any
    /// notice, by the machine's own offset as it is at this moment; the
    /// policy keeps that value however the machine's offset changes later.
    pub fn new(offset_value: Option<i32>, timestamp_precision: Option<TimestampPrecision>) -> (env:
        Self)
        ensures
            env@.wf(),
            env@ == initial_policy(env@.offset, timestamp_precision),
            offset_value matches Some(value) ==> (valid_offset(value as int) ==> env@.offset
                == value),
    {
        let local = local_offset();
        Self::with_local_offset(offset_value, timestamp_precision, local)
    }

    /// The policy that [`TimeZoneFormatEnv::new`] builds on a machine whose
    /// own offset is `local` seconds east of UTC.
    pub fn with_local_offset(
        offset_value: Option<i32>,
        timestamp_precision: Option<TimestampPrecision>,
        local: i32,
    ) -> (env: Self)
        requires
            valid_offset(local as int),
        ensures
            env@.wf(),
            env@ == initial_policy(resolved_offset(offset_value, local as int), timestamp_precision),
    {
        let offset = resolve_offset(offset_value, local);
        let datetime_fmt = pattern_for(timestamp_precision);
        proof {
            reveal_strlit("\n");
            vstd::string::is_ascii_spec_bytes("\n");
        }
        let env = Self {
            datetime_fmt,
            offset,
            show_module_path: false,
            target: true,
            level: true,
            indent: Some(4),
            suffix: "\n",
        };
        assert(env@.suffix =~= seq![LINE_BREAK]);
        env
    }
}

impl Default for TimeZoneFormatEnv {
    /// The policy of `new` with no offset and no precision asked for.
    fn default() -> (env: Self)
        ensures
            env@.wf(),
            env@ == initial_policy(env@.offset, None),
    {
        Self::new(None, None)
    }
}

} // verus!
