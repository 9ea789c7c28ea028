//! Log lines with timestamps at a fixed UTC offset.
//!
//! A [`TimeZoneFormatEnv`] is the policy: the timestamp pattern and offset,
//! which header fields are shown, how a message is indented and what ends a
//! line. A [`TimeZoneFormat`] renders one [`Record`] under a policy: a
//! bracketed header of fields, the message, the line ending.
//!
//! [`layout`] says what a rendered line is, [`indent`] what re-indenting a
//! message means, and [`timestamp`] what is known of a timestamp.

pub mod ascii;
pub mod format;
pub mod indent;
pub mod layout;
pub mod policy;
pub mod record;
pub mod timestamp;

pub use format::{StyledValue, TimeZoneFormat};
pub use policy::TimeZoneFormatEnv;
pub use record::{Level, Record, Style};
pub use timestamp::TimestampPrecision;
