//! Everything that is believed rather than proved: the formatter of the
//! `time` crate, the global threshold of the `log` crate, their error types,
//! the system clock and one method of `String`. Each item says what it takes
//! on trust.

use crate::level::LevelFilter;
use crate::stamp::{ClockReading, ENTRY_FORMAT, FILENAME_FORMAT};
use vstd::prelude::*;

verus! {

/// `std::io::Error`, the cause of a failed look-up or creation. It is
/// carried through as it came; nothing inside it is read.
#[verifier::external_type_specification]
#[verifier::external_body]
pub struct ExIoError(std::io::Error);

/// `time::Error`, which takes in every error of the `time` crate. It is
/// carried through as it came; nothing inside it is read.
#[verifier::external_type_specification]
#[verifier::external_body]
pub struct ExTimeError(time::Error);

/// `log::SetLoggerError`, the answer of `log::set_logger` where a sink is
/// registered already. It is carried through as it came.
#[verifier::external_type_specification]
#[verifier::external_body]
pub struct ExSetLoggerError(log::SetLoggerError);

/// `String::push` appends the given character to the end of the string.
pub assume_specification[ String::push ](text: &mut String, ch: char)
    ensures
        final(text)@ == old(text)@.push(ch),
;

/// The text that the `time` crate renders for the UTC instant `unix_nanos`,
/// counted in nanoseconds from the Unix epoch, under the format description
/// `description`; `None` where it reports an error instead.
pub uninterp spec fn formatted_utc(unix_nanos: int, description: Seq<char>) -> Option<Seq<char>>;

/// Reads the system clock with `std::time::SystemTime::now` and sets it
/// against the Unix epoch with `SystemTime::duration_since`: the distance in
/// whole seconds and the nanoseconds beyond them, and whether the clock
/// stands before the epoch. Nothing is claimed of what a clock reads, and
/// neither call panics.
#[verifier::external_body]
pub(crate) fn read_clock() -> ClockReading {
    match std::time::SystemTime::now().duration_since(std::time::UNIX_EPOCH) {
        Ok(since) => ClockReading {
            before_epoch: false,
            seconds: since.as_secs(),
            nanoseconds: since.subsec_nanos(),
        },
        Err(until) => ClockReading {
            before_epoch: true,
            seconds: until.duration().as_secs(),
            nanoseconds: until.duration().subsec_nanos(),
        },
    }
}

/// Renders an instant with `time::OffsetDateTime::format`, once
/// `OffsetDateTime::from_unix_timestamp_nanos` has rebuilt the instant and
/// `format_description::parse_borrowed` has read the description. The
/// outcome depends on the two arguments alone: the text is the named one,
/// and an error of any of the three calls is handed out as it came. This is
/// claimed of the two descriptions of this crate only.
#[verifier::external_body]
pub(crate) fn format_utc(unix_nanos: i128, description: &str) -> (rendered: Result<
    String,
    time::Error,
>)
    requires
        description@ == FILENAME_FORMAT@ || description@ == ENTRY_FORMAT@,
    ensures
        rendered matches Ok(text) ==> formatted_utc(unix_nanos as int, description@) == Some(
            text@,
        ),
        rendered is Err ==> formatted_utc(unix_nanos as int, description@) is None,
{
    let instant = time::OffsetDateTime::from_unix_timestamp_nanos(unix_nanos)?;
    let items = time::format_description::parse_borrowed::<1>(description)?;
    Ok(instant.format(&items)?)
}

/// Reads the global threshold with `log::max_level`. The threshold belongs
/// to the process and any part of it may set it, so nothing is claimed of
/// the value.
#[verifier::external_body]
pub(crate) fn max_level() -> LevelFilter {
    match log::max_level() {
        log::LevelFilter::Off => LevelFilter::Off,
        log::LevelFilter::Error => LevelFilter::Error,
        log::LevelFilter::Warn => LevelFilter::Warn,
        log::LevelFilter::Info => LevelFilter::Info,
        log::LevelFilter::Debug => LevelFilter::Debug,
        log::LevelFilter::Trace => LevelFilter::Trace,
    }
}

/// Sets the global threshold with `log::set_max_level`. The threshold is
/// state of the process, so the contract is silent on it.
#[verifier::external_body]
pub(crate) fn set_max_level(level: LevelFilter) {
    log::set_max_level(
        match level {
            LevelFilter::Off => log::LevelFilter::Off,
            LevelFilter::Error => log::LevelFilter::Error,
            LevelFilter::Warn => log::LevelFilter::Warn,
            LevelFilter::Info => log::LevelFilter::Info,
            LevelFilter::Debug => log::LevelFilter::Debug,
            LevelFilter::Trace => log::LevelFilter::Trace,
        },
    )
}

} // verus!
