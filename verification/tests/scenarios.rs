use hydrolox_log::{init, Level, LevelFilter, Logger};

fn sink() -> Logger {
    let logger = Logger::new(None).unwrap();
    assert!(matches!(init(LevelFilter::Info, false, Ok(())), Ok(None)));
    logger
}

#[test]
fn debug_is_silent_under_info() {
    let logger = sink();
    assert!(!logger.enabled(Level::Debug));
    assert!(matches!(logger.log(Level::Debug, "scenarios", "x"), Ok(None)));
}

#[test]
fn info_is_one_line_under_info() {
    let logger = sink();
    assert!(logger.enabled(Level::Info));
    let emission = logger.log(Level::Info, "scenarios", "Logging works!").unwrap().unwrap();
    let line = emission.line;
    assert!(!emission.to_file);
    assert_eq!(line.len(), "[ ".len() + 24 + " scenarios INFO ]: Logging works!\n".len());
    assert!(line.starts_with("[ "));
    assert!(line.ends_with(" scenarios INFO ]: Logging works!\n"));
    assert_eq!(line.matches('\n').count(), 1);
    let stamp = &line[2..26];
    assert_eq!(stamp.as_bytes()[10], b'T');
    assert_eq!(stamp.as_bytes()[13], b':');
    assert_eq!(stamp.as_bytes()[16], b':');
    assert_eq!(stamp.as_bytes()[19], b'.');
}
