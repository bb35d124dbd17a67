use hydrolox_log::{init, Level, LevelFilter, Logger};

#[test]
fn the_sink_follows_the_threshold_of_the_last_set_up() {
    let logger = Logger::new(None).unwrap();
    let levels = [Level::Error, Level::Warn, Level::Info, Level::Debug, Level::Trace];
    let filters = [
        LevelFilter::Trace,
        LevelFilter::Off,
        LevelFilter::Warn,
        LevelFilter::Error,
        LevelFilter::Debug,
        LevelFilter::Info,
    ];
    for max in filters {
        init(max, false, Ok(())).unwrap();
        for level in levels {
            assert_eq!(logger.enabled(level), level.passes(max));
            let outcome = logger.log(level, "threshold", "m").unwrap();
            assert_eq!(outcome.is_some(), level.passes(max));
        }
    }
}
