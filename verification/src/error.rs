//! The ways in which setting the sink up can fail.

use vstd::prelude::*;
use vstd::string::{to_string_from_display_ensures, StringExecFns};

verus! {

/// Why the sink could not be set up. Each variant but `NonUTF8Path` carries
/// the error that caused it.
#[derive(Debug)]
pub enum LoggerInitError {
    /// The path of the running executable could not be had.
    ExePathGetErr(std::io::Error),
    /// The path of the running executable is not valid text.
    NonUTF8Path,
    /// The time of the set-up could not be rendered for the file's name.
    TimeFormatErr(time::Error),
    /// The log file could not be created.
    CreateFileErr(std::io::Error),
    /// A sink is registered already.
    SetLoggerErr(log::SetLoggerError),
}

impl From<time::Error> for LoggerInitError {
    fn from(value: time::Error) -> (error: Self) {
        LoggerInitError::TimeFormatErr(value)
    }
}

impl vstd::std_specs::convert::FromSpecImpl<time::Error> for LoggerInitError {
    open spec fn obeys_from_spec() -> bool {
        true
    }

    open spec fn from_spec(value: time::Error) -> Self {
        LoggerInitError::TimeFormatErr(value)
    }
}

impl From<log::SetLoggerError> for LoggerInitError {
    fn from(value: log::SetLoggerError) -> (error: Self) {
        LoggerInitError::SetLoggerErr(value)
    }
}

impl vstd::std_specs::convert::FromSpecImpl<log::SetLoggerError> for LoggerInitError {
    open spec fn obeys_from_spec() -> bool {
        true
    }

    open spec fn from_spec(value: log::SetLoggerError) -> Self {
        LoggerInitError::SetLoggerErr(value)
    }
}

impl LoggerInitError {
    /// The error's message, given the text of its cause.
    pub open spec fn message_text(self, cause: Seq<char>) -> Seq<char> {
        match self {
            LoggerInitError::ExePathGetErr(_) => "Failed to get the current exe path: "@ + cause,
            LoggerInitError::NonUTF8Path => "Exe path contained non-UTF8 characters"@,
            LoggerInitError::TimeFormatErr(_) => "Failed to format current time: "@ + cause,
            LoggerInitError::CreateFileErr(_) => "Failed to create logfile: "@ + cause,
            LoggerInitError::SetLoggerErr(_) => "Failed to set logger: "@ + cause,
        }
    }

    /// Puts the message together from the text of the cause.
    pub fn message_with(&self, cause: &str) -> (message: String)
        ensures
            message@ == self.message_text(cause@),
    {
        match self {
            LoggerInitError::ExePathGetErr(_) => String::from_str(
                "Failed to get the current exe path: ",
            ).concat(cause),
            LoggerInitError::NonUTF8Path => String::from_str(
                "Exe path contained non-UTF8 characters",
            ),
            LoggerInitError::TimeFormatErr(_) => String::from_str(
                "Failed to format current time: ",
            ).concat(cause),
            LoggerInitError::CreateFileErr(_) => String::from_str(
                "Failed to create logfile: ",
            ).concat(cause),
            LoggerInitError::SetLoggerErr(_) => String::from_str("Failed to set logger: ").concat(
                cause,
            ),
        }
    }

    /// Whether `message` is the error's message with the cause in its own
    /// words: the text that the cause's `Display` gives.
    pub open spec fn is_message(self, message: Seq<char>) -> bool {
        match self {
            LoggerInitError::ExePathGetErr(cause) => exists|words: String|
                #[trigger] to_string_from_display_ensures::<std::io::Error>(&cause, words)
                    && message == self.message_text(words@),
            LoggerInitError::NonUTF8Path => message == self.message_text(Seq::empty()),
            LoggerInitError::TimeFormatErr(cause) => exists|words: String|
                #[trigger] to_string_from_display_ensures::<time::Error>(&cause, words) && message
                    == self.message_text(words@),
            LoggerInitError::CreateFileErr(cause) => exists|words: String|
                #[trigger] to_string_from_display_ensures::<std::io::Error>(&cause, words)
                    && message == self.message_text(words@),
            LoggerInitError::SetLoggerErr(cause) => exists|words: String|
                #[trigger] to_string_from_display_ensures::<log::SetLoggerError>(&cause, words)
                    && message == self.message_text(words@),
        }
    }

    /// The error's message, with the cause in its own words.
    pub fn message(&self) -> (message: String)
        ensures
            self.is_message(message@),
    {
        match self {
            LoggerInitError::ExePathGetErr(cause) => {
                let words = cause.to_string();
                self.message_with(words.as_str())
            },
            LoggerInitError::NonUTF8Path => self.message_with(""),
            LoggerInitError::TimeFormatErr(cause) => {
                let words = cause.to_string();
                self.message_with(words.as_str())
            },
            LoggerInitError::CreateFileErr(cause) => {
                let words = cause.to_string();
                self.message_with(words.as_str())
            },
            LoggerInitError::SetLoggerErr(cause) => {
                let words = cause.to_string();
                self.message_with(words.as_str())
            },
        }
    }
}

} // verus!
