use hydrolox_log::{init, ExeDir, Level, LevelFilter, Logger};

#[test]
fn open_logfile() {
    let logger = Logger::new(Some(ExeDir::Text(String::from(".")))).unwrap();
    let _log_state = init(LevelFilter::Debug, true, Ok(())).unwrap();
    let emission = logger.log(Level::Debug, "open_logfile", "Testing").unwrap().unwrap();
    assert!(_log_state.is_some());
    assert!(logger.logfile.as_deref().unwrap().starts_with("./log_"));
    assert!(emission.line.ends_with(" open_logfile DEBUG ]: Testing\n"));
    assert!(emission.to_file);
}
