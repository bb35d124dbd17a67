use hydrolox_log::level::{Level, LevelFilter};

const LEVELS: [(Level, u8, &str); 5] = [
    (Level::Error, 1, "ERROR"),
    (Level::Warn, 2, "WARN"),
    (Level::Info, 3, "INFO"),
    (Level::Debug, 4, "DEBUG"),
    (Level::Trace, 5, "TRACE"),
];

const FILTERS: [(LevelFilter, u8); 6] = [
    (LevelFilter::Off, 0),
    (LevelFilter::Error, 1),
    (LevelFilter::Warn, 2),
    (LevelFilter::Info, 3),
    (LevelFilter::Debug, 4),
    (LevelFilter::Trace, 5),
];

#[test]
fn severity_counts_from_error_to_trace() {
    for (level, rank, _) in LEVELS {
        assert_eq!(level.severity(), rank);
    }
}

#[test]
fn ceiling_counts_from_off_to_trace() {
    for (filter, rank) in FILTERS {
        assert_eq!(filter.ceiling(), rank);
    }
}

#[test]
fn levels_are_named_in_capitals() {
    for (level, _, name) in LEVELS {
        assert_eq!(level.name(), name);
    }
}

#[test]
fn a_level_passes_exactly_the_thresholds_at_or_above_it() {
    for (level, rank, _) in LEVELS {
        for (filter, ceiling) in FILTERS {
            assert_eq!(level.passes(filter), rank <= ceiling);
        }
    }
}

#[test]
fn info_threshold_lets_info_through_and_holds_debug_back() {
    assert!(Level::Error.passes(LevelFilter::Info));
    assert!(Level::Warn.passes(LevelFilter::Info));
    assert!(Level::Info.passes(LevelFilter::Info));
    assert!(!Level::Debug.passes(LevelFilter::Info));
    assert!(!Level::Trace.passes(LevelFilter::Info));
}

#[test]
fn off_holds_everything_back_and_trace_lets_everything_through() {
    for (level, _, _) in LEVELS {
        assert!(!level.passes(LevelFilter::Off));
        assert!(level.passes(LevelFilter::Trace));
    }
}

#[test]
fn what_passes_still_passes_when_severer_or_under_a_wider_threshold() {
    for (level, rank, _) in LEVELS {
        for (filter, ceiling) in FILTERS {
            if !level.passes(filter) {
                continue;
            }
            for (severer, severer_rank, _) in LEVELS {
                for (wider, wider_ceiling) in FILTERS {
                    if severer_rank <= rank && ceiling <= wider_ceiling {
                        assert!(severer.passes(wider));
                    }
                }
            }
        }
    }
}
