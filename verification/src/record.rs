//! What is rendered: a log event, and the style its level is shown in.

use vstd::prelude::*;
use vstd::string::StringSliceAdditionalSpecFns;

verus! {

/// The severity of a log event, most severe first.
#[derive(Clone, Copy, Debug, PartialEq, Eq, Hash)]
pub enum Level {
    Error,
    Warn,
    Info,
    Debug,
    Trace,
}

impl Level {
    /// The name of the level as text.
    pub open spec fn name(self) -> Seq<char> {
        match self {
            Level::Error => "ERROR"@,
            Level::Warn => "WARN"@,
            Level::Info => "INFO"@,
            Level::Debug => "DEBUG"@,
            Level::Trace => "TRACE"@,
        }
    }

    /// The name of the level as the bytes that are written for it.
    pub open spec fn label(self) -> Seq<u8> {
        vstd::utf8::encode_utf8(self.name())
    }

    /// The name of the level, in capitals.
    pub fn as_str(&self) -> (name: &'static str)
        ensures
            name@ == self.name(),
            name.spec_bytes() == self.label(),
    {
        match self {
            Level::Error => "ERROR",
            Level::Warn => "WARN",
            Level::Info => "INFO",
            Level::Debug => "DEBUG",
            Level::Trace => "TRACE",
        }
    }
}

/// The markers that set a value off from the text around it: `start` is
/// written before the value and `reset` after it. Both are empty where the
/// destination takes no styling.
#[derive(Clone, Copy, Debug)]
pub struct Style<'a> {
    pub start: &'a str,
    pub reset: &'a str,
}

/// A [`Style`] as the bytes of its two markers.
pub struct StyleView {
    pub start: Seq<u8>,
    pub reset: Seq<u8>,
}

impl<'a> View for Style<'a> {
    type V = StyleView;

    open spec fn view(&self) -> StyleView {
        StyleView { start: self.start.spec_bytes(), reset: self.reset.spec_bytes() }
    }
}

impl<'a> Style<'a> {
    /// The style that marks nothing.
    pub fn plain() -> (style: Self)
        ensures
            style@.start.len() == 0,
            style@.reset.len() == 0,
    {
        proof {
            reveal_strlit("");
        }
        Style { start: "", reset: "" }
    }
}

/// One log event: its level, the module it came from if that is known, the
/// target it was sent to (possibly empty) and the message.
#[derive(Clone, Copy, Debug)]
pub struct Record<'a> {
    pub level: Level,
    pub module: Option<&'a str>,
    pub target: &'a str,
    pub args: &'a str,
}

/// A [`Record`] as the bytes of its texts.
pub struct RecordView {
    pub level: Level,
    pub module: Option<Seq<u8>>,
    pub target: Seq<u8>,
    pub args: Seq<u8>,
}

impl<'a> View for Record<'a> {
    type V = RecordView;

    open spec fn view(&self) -> RecordView {
        RecordView {
            level: self.level,
            module: match self.module {
                Some(path) => Some(path.spec_bytes()),
                None => None,
            },
            target: self.target.spec_bytes(),
            args: self.args.spec_bytes(),
        }
    }
}

} // verus!
