//! The verified core of a process-wide logging sink.
//!
//! The sink takes levelled, targeted records and renders each one that passes
//! the severity filter as a single line, `[ A B C ]: D`, where A is the UTC
//! time of the call, B the record's target, C its level and D the message.
//! The same line goes to the console and, where one was asked for, to a log
//! file named after the UTC time at which the sink was set up.
//!
//! Everything here decides and computes; nothing here touches a file or a
//! stream. The embedding layer reads the executable's location, creates the
//! file, registers the sink with the `log` facade and writes the lines, and
//! hands each outcome to the functions of this crate.

pub mod error;
pub mod level;
pub mod logger;
pub mod registry;
pub mod stamp;
pub mod trusted;

pub use error::LoggerInitError;
pub use level::{Level, LevelFilter};
pub use logger::{Emission, ExeDir, Logger};
pub use registry::{init, LogState};
pub use stamp::{
    now_entry, now_filename, now_formatted, ClockReading, TimestampFormat, UtcInstant,
};
