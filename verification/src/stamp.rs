//! The timestamp formatter: one UTC clock sample, rendered under one of two
//! fixed profiles.

use crate::trusted::{format_utc, formatted_utc, read_clock};
use vstd::prelude::*;

verus! {

/// What becomes of one character when colons are replaced.
pub open spec fn colon_free(ch: char) -> char {
    if ch == ':' {
        '_'
    } else {
        ch
    }
}

/// `text` with every colon replaced by an underscore.
pub open spec fn colons_replaced(text: Seq<char>) -> Seq<char> {
    Seq::new(text.len(), |i: int| colon_free(text[i]))
}

/// Scans `text` and replaces every colon by an underscore.
pub fn replace_colons(text: &str) -> (clean: String)
    ensures
        clean@ == colons_replaced(text@),
{
    let mut clean = String::new();
    for ch in it: text.chars()
        invariant
            it.seq() == text@,
            clean@ == colons_replaced(text@.take(it.index() as int)),
    {
        clean.push(if ch == ':' { '_' } else { ch });
    }
    clean
}

/// The description of the filename profile: date and time to the second,
/// with underscores between the parts of the time.
pub const FILENAME_FORMAT: &'static str = "[year]-[month]-[day]T[hour repr:24]_[minute]_[second]";

/// The description of the entry profile: date and time with four digits of
/// the second's fraction.
pub const ENTRY_FORMAT: &'static str =
    "[year]-[month]-[day]T[hour]:[minute]:[second].[subsecond digits:4]";

/// The two textual profiles under which an instant is rendered.
#[derive(Clone, Copy, Debug, PartialEq, Eq, Structural)]
pub enum TimestampFormat {
    /// Safe in a file name: no colon stands in it.
    Filename,
    /// Precise below the second, for the head of a log line.
    Entry,
}

impl TimestampFormat {
    /// The format description that the profile hands to the `time` crate.
    pub open spec fn template(self) -> Seq<char> {
        match self {
            TimestampFormat::Filename => FILENAME_FORMAT@,
            TimestampFormat::Entry => ENTRY_FORMAT@,
        }
    }

    /// What the profile makes of the text that the `time` crate rendered:
    /// the filename profile replaces every colon, the entry profile keeps
    /// the text as it is.
    pub open spec fn finished(self, rendered: Seq<char>) -> Seq<char> {
        match self {
            TimestampFormat::Filename => colons_replaced(rendered),
            TimestampFormat::Entry => rendered,
        }
    }

    /// The profile's format description.
    pub fn description(self) -> (text: &'static str)
        ensures
            text@ == self.template(),
    {
        match self {
            TimestampFormat::Filename => FILENAME_FORMAT,
            TimestampFormat::Entry => ENTRY_FORMAT,
        }
    }

    /// Takes in what the formatter gave for this profile: a rendered text is
    /// finished as the profile asks, and the formatter's error is handed on
    /// as it came.
    pub fn finish(self, rendered: Result<String, time::Error>) -> (stamp: Result<
        String,
        time::Error,
    >)
        ensures
            match rendered {
                Ok(text) => stamp matches Ok(finished) && finished@ == self.finished(text@),
                Err(cause) => stamp == Err::<String, time::Error>(cause),
            },
    {
        match rendered {
            Ok(text) => match self {
                TimestampFormat::Filename => Ok(replace_colons(text.as_str())),
                TimestampFormat::Entry => Ok(text),
            },
            Err(cause) => Err(cause),
        }
    }
}

/// One sample of the UTC clock: nanoseconds since the Unix epoch.
#[derive(Clone, Copy, Debug, PartialEq, Eq, Structural)]
pub struct UtcInstant {
    pub unix_nanos: i128,
}

impl View for UtcInstant {
    type V = int;

    open spec fn view(&self) -> int {
        self.unix_nanos as int
    }
}

/// What the system clock read, set against the Unix epoch: the distance in
/// whole seconds and the nanoseconds beyond them, and on which side of the
/// epoch the clock stands.
#[derive(Clone, Copy, Debug, PartialEq, Eq, Structural)]
pub struct ClockReading {
    pub before_epoch: bool,
    pub seconds: u64,
    pub nanoseconds: u32,
}

impl ClockReading {
    /// The reading as nanoseconds since the Unix epoch: the distance, counted
    /// backwards where the clock stands before the epoch.
    pub open spec fn unix_nanos(self) -> int {
        let distance = self.seconds * 1_000_000_000 + self.nanoseconds;
        if self.before_epoch {
            -distance
        } else {
            distance
        }
    }
}

impl UtcInstant {
    /// The instant of a clock reading. Every reading has one, also one that
    /// no calendar holds.
    pub fn from_reading(reading: ClockReading) -> (instant: UtcInstant)
        ensures
            instant@ == reading.unix_nanos(),
    {
        let distance: i128 = reading.seconds as i128 * 1_000_000_000 + reading.nanoseconds as i128;
        if reading.before_epoch {
            UtcInstant { unix_nanos: -distance }
        } else {
            UtcInstant { unix_nanos: distance }
        }
    }
}

/// What rendering the instant `unix_nanos` under `format` comes to: the
/// text of the `time` crate as the profile finishes it, or an error where
/// the crate reports one.
pub open spec fn stamped(
    unix_nanos: int,
    format: TimestampFormat,
    stamp: Result<String, time::Error>,
) -> bool {
    match formatted_utc(unix_nanos, format.template()) {
        Some(rendered) => stamp matches Ok(text) && text@ == format.finished(rendered),
        None => stamp is Err,
    }
}

/// Whether `stamp` is the stamp of some instant under `format`.
pub open spec fn is_stamp_of(stamp: Seq<char>, format: TimestampFormat) -> bool {
    exists|unix_nanos: int|
        #[trigger] formatted_utc(unix_nanos, format.template()) matches Some(rendered)
            && stamp == format.finished(rendered)
}

/// Renders `instant` under `format`.
pub fn format_instant(instant: UtcInstant, format: TimestampFormat) -> (stamp: Result<
    String,
    time::Error,
>)
    ensures
        stamped(instant@, format, stamp),
{
    format.finish(format_utc(instant.unix_nanos, format.description()))
}

/// Renders the current UTC time under `format`.
pub fn now_formatted(format: TimestampFormat) -> (stamp: Result<String, time::Error>)
    ensures
        exists|now: int| stamped(now, format, stamp),
{
    format_instant(UtcInstant::from_reading(read_clock()), format)
}

/// The current UTC time under the filename profile.
pub fn now_filename() -> (stamp: Result<String, time::Error>)
    ensures
        exists|now: int| stamped(now, TimestampFormat::Filename, stamp),
        stamp matches Ok(text) ==> !text@.contains(':'),
{
    let stamp = now_formatted(TimestampFormat::Filename);
    proof {
        if stamp is Ok {
            lemma_filename_stamp_has_no_colon(stamp->Ok_0@);
        }
    }
    stamp
}

/// The current UTC time under the entry profile.
pub fn now_entry() -> (stamp: Result<String, time::Error>)
    ensures
        exists|now: int| stamped(now, TimestampFormat::Entry, stamp),
{
    now_formatted(TimestampFormat::Entry)
}

/// Replacing the colons keeps the length, leaves no colon behind, changes
/// nothing in a text without colons, and so changes nothing when repeated.
pub proof fn lemma_colons_replaced(text: Seq<char>)
    ensures
        colons_replaced(text).len() == text.len(),
        !colons_replaced(text).contains(':'),
        !text.contains(':') ==> colons_replaced(text) == text,
        colons_replaced(colons_replaced(text)) == colons_replaced(text),
{
    let once = colons_replaced(text);
    assert(!once.contains(':')) by {
        if once.contains(':') {
            let i = choose|i: int| 0 <= i < once.len() && once[i] == ':';
            assert(once[i] == colon_free(text[i]));
        }
    }
    if !text.contains(':') {
        assert forall|i: int| 0 <= i < text.len() implies once[i] == text[i] by {
            assert(text.contains(text[i]));
        }
        assert(once =~= text);
    }
    assert(colons_replaced(once) =~= once);
}

/// No stamp of the filename profile holds a colon, whatever the instant.
pub proof fn lemma_filename_stamp_has_no_colon(stamp: Seq<char>)
    requires
        is_stamp_of(stamp, TimestampFormat::Filename),
    ensures
        !stamp.contains(':'),
{
    let unix_nanos = choose|unix_nanos: int|
        #[trigger] formatted_utc(unix_nanos, TimestampFormat::Filename.template()) matches Some(
            rendered,
        ) && stamp == TimestampFormat::Filename.finished(rendered);
    lemma_colons_replaced(formatted_utc(unix_nanos, TimestampFormat::Filename.template())->0);
}

} // verus!
