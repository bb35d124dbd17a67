//! The last step of setting the sink up, and the guard that flushes it.

use crate::error::LoggerInitError;
use crate::level::LevelFilter;
use crate::logger::Logger;
use crate::trusted::set_max_level;
use vstd::prelude::*;

verus! {

/// The guard of a sink with a log file. It holds nothing; letting go of it
/// flushes the file.
#[derive(Debug)]
pub struct LogState {}

impl LogState {
    /// Whether letting go of the guard has a file to flush: `active`, the
    /// registered sink, is there and has a log file. With no sink registered
    /// nothing is to be done, and asking again gives the same answer.
    pub fn release(&self, active: Option<&Logger>) -> (file: bool)
        ensures
            file == (active matches Some(logger) && logger.has_logfile()),
    {
        match active {
            Some(logger) => logger.flush(),
            None => false,
        }
    }
}

/// Completes the set-up once the embedding layer has tried to register the
/// sink with the `log` facade and hands in how that went.
///
/// Where a sink was registered already, the set-up fails with that error.
/// Else `max_level` is handed to `log::set_max_level`, and the guard is
/// handed out where a log file was asked for. The threshold itself is state
/// of the process: the contract speaks of the result alone.
pub fn init(
    max_level: LevelFilter,
    use_logfile: bool,
    registration: Result<(), log::SetLoggerError>,
) -> (done: Result<Option<LogState>, LoggerInitError>)
    ensures
        match registration {
            Ok(_) => done == Ok::<Option<LogState>, LoggerInitError>(
                if use_logfile {
                    Some(LogState {})
                } else {
                    None
                },
            ),
            Err(cause) => done == Err::<Option<LogState>, LoggerInitError>(
                LoggerInitError::SetLoggerErr(cause),
            ),
        },
{
    match registration {
        Err(cause) => Err(LoggerInitError::from(cause)),
        Ok(_) => {
            set_max_level(max_level);
            if use_logfile {
                Ok(Some(LogState {}))
            } else {
                Ok(None)
            }
        },
    }
}

} // verus!
