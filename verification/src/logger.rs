//! The sink: what it is made from, which records it emits, and the line it
//! renders for each of them.

use crate::error::LoggerInitError;
use crate::level::{Level, LevelFilter};
use crate::stamp::{
    format_instant, is_stamp_of, lemma_filename_stamp_has_no_colon, now_entry, now_filename,
    stamped, TimestampFormat, UtcInstant,
};
use crate::trusted::{formatted_utc, max_level};
use vstd::prelude::*;
use vstd::string::StringExecFns;

verus! {

/// The line of one record: `[ stamp target LEVEL ]: message` and a newline.
pub open spec fn line_text(
    stamp: Seq<char>,
    target: Seq<char>,
    level: Level,
    message: Seq<char>,
) -> Seq<char> {
    "[ "@ + stamp + " "@ + target + " "@ + level.name_text() + " ]: "@ + message + "\n"@
}

/// The name of the log file that is set up at the time `stamp`.
pub open spec fn logfile_name(stamp: Seq<char>) -> Seq<char> {
    "log_"@ + stamp + ".txt"@
}

/// The path of that file in the directory `dir`.
pub open spec fn logfile_path(dir: Seq<char>, stamp: Seq<char>) -> Seq<char> {
    dir + "/"@ + logfile_name(stamp)
}

/// Renders the line of one record.
pub fn render_line(stamp: &str, target: &str, level: Level, message: &str) -> (line: String)
    ensures
        line@ == line_text(stamp@, target@, level, message@),
{
    let mut line = String::from_str("[ ");
    line.append(stamp);
    line.append(" ");
    line.append(target);
    line.append(" ");
    line.append(level.name());
    line.append(" ]: ");
    line.append(message);
    line.append("\n");
    line
}

/// Puts the path of the log file together.
pub fn render_logfile_path(dir: &str, stamp: &str) -> (path: String)
    ensures
        path@ == logfile_path(dir@, stamp@),
{
    let mut name = String::from_str("log_");
    name.append(stamp);
    name.append(".txt");
    let mut path = String::from_str(dir);
    path.append("/");
    path.append(name.as_str());
    path
}

/// A line holds its parts whole and in order, each between its delimiters,
/// and ends with the newline: nothing of a record is lost or cut.
pub proof fn lemma_line_is_framed(
    stamp: Seq<char>,
    target: Seq<char>,
    level: Level,
    message: Seq<char>,
)
    ensures
        ({
            let line = line_text(stamp, target, level, message);
            let name = level.name_text();
            let stamp_end = 2 + stamp.len() as int;
            let target_end = stamp_end + 1 + target.len() as int;
            let name_end = target_end + 1 + name.len() as int;
            let message_end = name_end + 4 + message.len() as int;
            &&& line.len() == message_end + 1
            &&& line.subrange(0, 2) == seq!['[', ' ']
            &&& line.subrange(2, stamp_end) == stamp
            &&& line[stamp_end] == ' '
            &&& line.subrange(stamp_end + 1, target_end) == target
            &&& line[target_end] == ' '
            &&& line.subrange(target_end + 1, name_end) == name
            &&& line.subrange(name_end, name_end + 4) == seq![' ', ']', ':', ' ']
            &&& line.subrange(name_end + 4, message_end) == message
            &&& line[message_end] == '\n'
        }),
{
    reveal_strlit("[ ");
    reveal_strlit(" ");
    reveal_strlit(" ]: ");
    reveal_strlit("\n");
    let line = line_text(stamp, target, level, message);
    let name = level.name_text();
    let stamp_end = 2 + stamp.len() as int;
    let target_end = stamp_end + 1 + target.len() as int;
    let name_end = target_end + 1 + name.len() as int;
    let message_end = name_end + 4 + message.len() as int;
    assert(line.subrange(0, 2) =~= seq!['[', ' ']);
    assert(line.subrange(2, stamp_end) =~= stamp);
    assert(line.subrange(stamp_end + 1, target_end) =~= target);
    assert(line.subrange(target_end + 1, name_end) =~= name);
    assert(line.subrange(name_end, name_end + 4) =~= seq![' ', ']', ':', ' ']);
    assert(line.subrange(name_end + 4, message_end) =~= message);
}

/// What neither of two texts holds, the two joined do not hold either.
proof fn lemma_joined_holds_none(head: Seq<char>, tail: Seq<char>, ch: char)
    requires
        !head.contains(ch),
        !tail.contains(ch),
    ensures
        !(head + tail).contains(ch),
{
    let joined = head + tail;
    if joined.contains(ch) {
        let i = choose|i: int| 0 <= i < joined.len() && joined[i] == ch;
        if i < head.len() {
            assert(head[i] == ch);
        } else {
            assert(tail[i - head.len()] == ch);
        }
    }
}

/// A record whose stamp, target and message hold no newline is rendered as
/// exactly one line: it ends with a newline and holds no other.
pub proof fn lemma_line_is_one_line(
    stamp: Seq<char>,
    target: Seq<char>,
    level: Level,
    message: Seq<char>,
)
    requires
        !stamp.contains('\n'),
        !target.contains('\n'),
        !message.contains('\n'),
    ensures
        line_text(stamp, target, level, message).last() == '\n',
        !line_text(stamp, target, level, message).drop_last().contains('\n'),
{
    reveal_strlit("[ ");
    reveal_strlit(" ");
    reveal_strlit(" ]: ");
    reveal_strlit("\n");
    reveal_strlit("ERROR");
    reveal_strlit("WARN");
    reveal_strlit("INFO");
    reveal_strlit("DEBUG");
    reveal_strlit("TRACE");
    let name = level.name_text();
    let to_stamp = "[ "@ + stamp;
    let to_target = to_stamp + " "@ + target;
    let to_name = to_target + " "@ + name;
    let to_message = to_name + " ]: "@ + message;
    lemma_joined_holds_none("[ "@, stamp, '\n');
    lemma_joined_holds_none(to_stamp, " "@, '\n');
    lemma_joined_holds_none(to_stamp + " "@, target, '\n');
    lemma_joined_holds_none(to_target, " "@, '\n');
    lemma_joined_holds_none(to_target + " "@, name, '\n');
    lemma_joined_holds_none(to_name, " ]: "@, '\n');
    lemma_joined_holds_none(to_name + " ]: "@, message, '\n');
    assert(line_text(stamp, target, level, message).drop_last() =~= to_message);
}

/// Set-ups at different stamps name different files, in whatever
/// directories they lie.
pub proof fn lemma_logfile_names_differ(first: Seq<char>, second: Seq<char>)
    requires
        first != second,
    ensures
        logfile_name(first) != logfile_name(second),
        forall|dir: Seq<char>| #[trigger] logfile_path(dir, first) != logfile_path(dir, second),
{
    reveal_strlit("log_");
    reveal_strlit(".txt");
    reveal_strlit("/");
    let a = logfile_name(first);
    let b = logfile_name(second);
    assert(a.subrange(4, a.len() - 4) =~= first);
    assert(b.subrange(4, b.len() - 4) =~= second);
    assert forall|dir: Seq<char>| #[trigger]
        logfile_path(dir, first) != logfile_path(dir, second) by {
        let p = logfile_path(dir, first);
        let q = logfile_path(dir, second);
        assert(p.subrange(dir.len() as int + 1, p.len() as int) =~= a);
        assert(q.subrange(dir.len() as int + 1, q.len() as int) =~= b);
    }
}

/// The name of a log file holds no colon, whatever the instant of the
/// set-up.
pub proof fn lemma_logfile_name_has_no_colon(stamp: Seq<char>)
    requires
        is_stamp_of(stamp, TimestampFormat::Filename),
    ensures
        !logfile_name(stamp).contains(':'),
{
    reveal_strlit("log_");
    reveal_strlit(".txt");
    lemma_filename_stamp_has_no_colon(stamp);
    lemma_joined_holds_none("log_"@, stamp, ':');
    lemma_joined_holds_none("log_"@ + stamp, ".txt"@, ':');
}

/// What the process learned when it looked for the directory that holds its
/// executable.
#[derive(Debug)]
pub enum ExeDir {
    /// The executable's path could not be had.
    Unresolved(std::io::Error),
    /// The directory's path is not valid text.
    NonText,
    /// The directory's path.
    Text(String),
}

/// One rendered record, and whether the log file receives it as the console
/// does.
#[derive(Debug)]
pub struct Emission {
    pub line: String,
    pub to_file: bool,
}

/// The sink. It holds the path of its log file, where it has one.
#[derive(Debug)]
pub struct Logger {
    pub logfile: Option<String>,
}

impl Logger {
    /// Whether the sink writes to a log file besides the console.
    pub open spec fn has_logfile(&self) -> bool {
        self.logfile is Some
    }

    /// What setting a sink up at the instant `now` comes to. `logfile_dir`
    /// is `None` where no log file is asked for, and the set-up then always
    /// succeeds. Else it is what the process learned of the executable's
    /// directory: the directory must be known and be text, and the instant
    /// must render under the filename profile; the file then lies in that
    /// directory and is named after the instant.
    pub open spec fn set_up(
        logfile_dir: Option<ExeDir>,
        now: int,
        made: Result<Logger, LoggerInitError>,
    ) -> bool {
        match logfile_dir {
            None => made == Ok::<Logger, LoggerInitError>(Logger { logfile: None }),
            Some(ExeDir::Unresolved(cause)) => made == Err::<Logger, LoggerInitError>(
                LoggerInitError::ExePathGetErr(cause),
            ),
            Some(ExeDir::NonText) => made == Err::<Logger, LoggerInitError>(
                LoggerInitError::NonUTF8Path,
            ),
            Some(ExeDir::Text(dir)) => match formatted_utc(
                now,
                TimestampFormat::Filename.template(),
            ) {
                Some(rendered) => made matches Ok(logger) && logger.logfile matches Some(path)
                    && path@ == logfile_path(dir@, TimestampFormat::Filename.finished(rendered)),
                None => made matches Err(LoggerInitError::TimeFormatErr(_)),
            },
        }
    }

    /// Takes in the stamp of the set-up: with a stamp, the sink whose file
    /// lies in `dir` under the stamp's name; without one, the set-up fails
    /// with the formatter's error as its cause.
    pub fn named(dir: &str, stamp: Result<String, time::Error>) -> (made: Result<
        Logger,
        LoggerInitError,
    >)
        ensures
            match stamp {
                Ok(text) => made matches Ok(logger) && logger.logfile matches Some(path)
                    && path@ == logfile_path(dir@, text@),
                Err(cause) => made == Err::<Logger, LoggerInitError>(
                    LoggerInitError::TimeFormatErr(cause),
                ),
            },
    {
        match stamp {
            Ok(text) => Ok(Logger { logfile: Some(render_logfile_path(dir, text.as_str())) }),
            Err(cause) => Err(LoggerInitError::from(cause)),
        }
    }

    /// Sets a sink up at the instant `now`.
    pub fn new_at(logfile_dir: Option<ExeDir>, now: UtcInstant) -> (made: Result<
        Logger,
        LoggerInitError,
    >)
        ensures
            Logger::set_up(logfile_dir, now@, made),
    {
        match logfile_dir {
            None => Ok(Logger { logfile: None }),
            Some(ExeDir::Unresolved(cause)) => Err(LoggerInitError::ExePathGetErr(cause)),
            Some(ExeDir::NonText) => Err(LoggerInitError::NonUTF8Path),
            Some(ExeDir::Text(dir)) => Logger::named(
                dir.as_str(),
                format_instant(now, TimestampFormat::Filename),
            ),
        }
    }

    /// Sets a sink up now. The clock is read only where a file is to be
    /// named. The embedding layer creates the file that the sink names
    /// before it registers the sink.
    pub fn new(logfile_dir: Option<ExeDir>) -> (made: Result<Logger, LoggerInitError>)
        ensures
            exists|now: int| Logger::set_up(logfile_dir, now, made),
    {
        match logfile_dir {
            None => {
                let made = Ok(Logger { logfile: None });
                assert(Logger::set_up(logfile_dir, 0, made));
                made
            },
            Some(ExeDir::Unresolved(cause)) => {
                let made = Err(LoggerInitError::ExePathGetErr(cause));
                assert(Logger::set_up(logfile_dir, 0, made));
                made
            },
            Some(ExeDir::NonText) => {
                let made = Err(LoggerInitError::NonUTF8Path);
                assert(Logger::set_up(logfile_dir, 0, made));
                made
            },
            Some(ExeDir::Text(dir)) => {
                let stamp = now_filename();
                let ghost now = choose|now: int| stamped(now, TimestampFormat::Filename, stamp);
                let made = Logger::named(dir.as_str(), stamp);
                assert(Logger::set_up(logfile_dir, now, made));
                made
            },
        }
    }

    /// Takes in whether the log file could be created: a sink whose file
    /// could not be created is given up.
    pub fn file_created(self, created: Result<(), std::io::Error>) -> (kept: Result<
        Logger,
        LoggerInitError,
    >)
        ensures
            match created {
                Ok(_) => kept == Ok::<Logger, LoggerInitError>(self),
                Err(cause) => kept == Err::<Logger, LoggerInitError>(
                    LoggerInitError::CreateFileErr(cause),
                ),
            },
    {
        match created {
            Ok(_) => Ok(self),
            Err(cause) => Err(LoggerInitError::CreateFileErr(cause)),
        }
    }

    /// What a record logged at the instant `now` under the threshold `max`
    /// comes to: nothing where the filter holds it back; else one line that
    /// begins with the instant under the entry profile, bound for the log
    /// file too where the sink has one; or the formatter's error.
    pub open spec fn logged(
        &self,
        max: LevelFilter,
        now: int,
        level: Level,
        target: Seq<char>,
        message: Seq<char>,
        outcome: Result<Option<Emission>, time::Error>,
    ) -> bool {
        if !level.passes(max) {
            outcome == Ok::<Option<Emission>, time::Error>(None)
        } else {
            match formatted_utc(now, TimestampFormat::Entry.template()) {
                Some(stamp) => outcome matches Ok(Some(emission)) && emission.line@ == line_text(
                    stamp,
                    target,
                    level,
                    message,
                ) && emission.to_file == self.has_logfile(),
                None => outcome is Err,
            }
        }
    }

    /// Whether a record at `level` is emitted under the global threshold,
    /// as it stands at the call: `level.passes` of that threshold.
    pub fn enabled(&self, level: Level) -> (emitted: bool)
        ensures
            exists|max: LevelFilter| emitted == level.passes(max),
    {
        let max = max_level();
        let emitted = level.passes(max);
        assert(emitted == level.passes(max));
        emitted
    }

    /// Takes in the stamp of a record that passed the filter: with a stamp,
    /// the record's one line, bound for the log file too where the sink has
    /// one; without one, the formatter's error as it came.
    pub fn emit(
        &self,
        stamp: Result<String, time::Error>,
        level: Level,
        target: &str,
        message: &str,
    ) -> (outcome: Result<Option<Emission>, time::Error>)
        ensures
            match stamp {
                Ok(text) => outcome matches Ok(Some(emission)) && emission.line@ == line_text(
                    text@,
                    target@,
                    level,
                    message@,
                ) && emission.to_file == self.has_logfile(),
                Err(cause) => outcome == Err::<Option<Emission>, time::Error>(cause),
            },
    {
        match stamp {
            Ok(text) => Ok(
                Some(
                    Emission {
                        line: render_line(text.as_str(), target, level, message),
                        to_file: self.logfile.is_some(),
                    },
                ),
            ),
            Err(cause) => Err(cause),
        }
    }

    /// Decides on one record under the threshold `max` at the instant `now`.
    pub fn log_at(
        &self,
        max: LevelFilter,
        now: UtcInstant,
        level: Level,
        target: &str,
        message: &str,
    ) -> (outcome: Result<Option<Emission>, time::Error>)
        ensures
            self.logged(max, now@, level, target@, message@, outcome),
    {
        if !level.passes(max) {
            return Ok(None);
        }
        self.emit(format_instant(now, TimestampFormat::Entry), level, target, message)
    }

    /// Decides on one record under the threshold `max`, now. A record that
    /// the threshold holds back costs neither a look at the clock nor any
    /// rendering.
    pub fn log_under(
        &self,
        max: LevelFilter,
        level: Level,
        target: &str,
        message: &str,
    ) -> (outcome: Result<Option<Emission>, time::Error>)
        ensures
            exists|now: int| self.logged(max, now, level, target@, message@, outcome),
    {
        if !level.passes(max) {
            assert(self.logged(max, 0, level, target@, message@, Ok(None)));
            return Ok(None);
        }
        let stamp = now_entry();
        let ghost now = choose|now: int| stamped(now, TimestampFormat::Entry, stamp);
        let outcome = self.emit(stamp, level, target, message);
        assert(self.logged(max, now, level, target@, message@, outcome));
        outcome
    }

    /// Decides on one record under the global threshold, now: the threshold
    /// is looked up, and the record is decided on under it.
    pub fn log(&self, level: Level, target: &str, message: &str) -> (outcome: Result<
        Option<Emission>,
        time::Error,
    >)
        ensures
            exists|max: LevelFilter, now: int|
                self.logged(max, now, level, target@, message@, outcome),
    {
        self.log_under(max_level(), level, target, message)
    }

    /// Whether a flush has a file to flush.
    pub fn flush(&self) -> (file: bool)
        ensures
            file == self.has_logfile(),
    {
        self.logfile.is_some()
    }
}

} // verus!
