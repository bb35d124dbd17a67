//! Severity levels and the filter that decides which records are emitted.

use vstd::prelude::*;

verus! {

/// The severity of one record, from the most severe to the most verbose.
#[derive(Clone, Copy, Debug, PartialEq, Eq, Structural)]
pub enum Level {
    Error,
    Warn,
    Info,
    Debug,
    Trace,
}

/// The most verbose level that is still emitted; `Off` emits nothing.
#[derive(Clone, Copy, Debug, PartialEq, Eq, Structural)]
pub enum LevelFilter {
    Off,
    Error,
    Warn,
    Info,
    Debug,
    Trace,
}

impl Level {
    /// The position of the level on the verbosity scale: 1 for `Error`, the
    /// most severe, up to 5 for `Trace`.
    pub open spec fn rank(self) -> int {
        match self {
            Level::Error => 1,
            Level::Warn => 2,
            Level::Info => 3,
            Level::Debug => 4,
            Level::Trace => 5,
        }
    }

    /// The level's name as it stands in a rendered line.
    pub open spec fn name_text(self) -> Seq<char> {
        match self {
            Level::Error => "ERROR"@,
            Level::Warn => "WARN"@,
            Level::Info => "INFO"@,
            Level::Debug => "DEBUG"@,
            Level::Trace => "TRACE"@,
        }
    }

    /// Whether a record at this level is emitted under the threshold `max`:
    /// it is at least as severe as the threshold.
    pub open spec fn passes_spec(self, max: LevelFilter) -> bool {
        self.rank() <= max.rank()
    }

    /// The level's rank.
    pub fn severity(self) -> (rank: u8)
        ensures
            rank == self.rank(),
    {
        match self {
            Level::Error => 1,
            Level::Warn => 2,
            Level::Info => 3,
            Level::Debug => 4,
            Level::Trace => 5,
        }
    }

    /// The level's name.
    pub fn name(self) -> (name: &'static str)
        ensures
            name@ == self.name_text(),
    {
        match self {
            Level::Error => "ERROR",
            Level::Warn => "WARN",
            Level::Info => "INFO",
            Level::Debug => "DEBUG",
            Level::Trace => "TRACE",
        }
    }

    /// The severity filter: true exactly when this level is at least as
    /// severe as `max`.
    #[verifier::when_used_as_spec(passes_spec)]
    pub fn passes(self, max: LevelFilter) -> (emitted: bool)
        ensures
            emitted <==> self.rank() <= max.rank(),
    {
        self.severity() <= max.ceiling()
    }
}

impl LevelFilter {
    /// The rank of the most verbose level that the threshold lets through;
    /// 0 for `Off`, below every level.
    pub open spec fn rank(self) -> int {
        match self {
            LevelFilter::Off => 0,
            LevelFilter::Error => 1,
            LevelFilter::Warn => 2,
            LevelFilter::Info => 3,
            LevelFilter::Debug => 4,
            LevelFilter::Trace => 5,
        }
    }

    /// The threshold's rank.
    pub fn ceiling(self) -> (rank: u8)
        ensures
            rank == self.rank(),
    {
        match self {
            LevelFilter::Off => 0,
            LevelFilter::Error => 1,
            LevelFilter::Warn => 2,
            LevelFilter::Info => 3,
            LevelFilter::Debug => 4,
            LevelFilter::Trace => 5,
        }
    }
}

/// The filter is monotonic: a record that passes a threshold still passes
/// when the record is made more severe or the threshold more verbose.
pub proof fn lemma_filter_monotonic(
    level: Level,
    max: LevelFilter,
    severer: Level,
    wider: LevelFilter,
)
    requires
        level.passes(max),
        severer.rank() <= level.rank(),
        max.rank() <= wider.rank(),
    ensures
        severer.passes(wider),
{
}

/// `Off` lets nothing through, and `Trace` lets everything through.
pub proof fn lemma_filter_extremes(level: Level)
    ensures
        !level.passes(LevelFilter::Off),
        level.passes(LevelFilter::Trace),
{
}

} // verus!
