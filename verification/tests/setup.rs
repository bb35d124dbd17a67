use hydrolox_log::{init, LevelFilter, LogState, LoggerInitError};

struct Quiet;

impl log::Log for Quiet {
    fn enabled(&self, _metadata: &log::Metadata) -> bool {
        false
    }

    fn log(&self, _record: &log::Record) {}

    fn flush(&self) {}
}

/// What the facade answers to a registration once a sink is registered.
fn refusal() -> log::SetLoggerError {
    let sink: &'static Quiet = Box::leak(Box::new(Quiet));
    let _ = log::set_logger(sink);
    log::set_logger(sink).unwrap_err()
}

fn not_found() -> std::io::Error {
    std::io::Error::new(std::io::ErrorKind::NotFound, "no such file")
}

fn out_of_range() -> time::Error {
    time::Error::from(time::OffsetDateTime::from_unix_timestamp(i64::MAX).unwrap_err())
}

#[test]
fn the_guard_is_handed_out_only_with_a_logfile() {
    assert!(matches!(init(LevelFilter::Info, true, Ok(())), Ok(Some(LogState {}))));
    assert!(matches!(init(LevelFilter::Info, false, Ok(())), Ok(None)));
}

#[test]
fn a_second_registration_fails_the_set_up() {
    assert!(matches!(
        init(LevelFilter::Info, false, Err(refusal())),
        Err(LoggerInitError::SetLoggerErr(_))
    ));
    assert!(matches!(
        init(LevelFilter::Trace, true, Err(refusal())),
        Err(LoggerInitError::SetLoggerErr(_))
    ));
}

#[test]
fn each_error_has_its_message() {
    assert_eq!(
        LoggerInitError::ExePathGetErr(not_found()).message_with("gone"),
        "Failed to get the current exe path: gone"
    );
    assert_eq!(
        LoggerInitError::NonUTF8Path.message_with("ignored"),
        "Exe path contained non-UTF8 characters"
    );
    assert_eq!(
        LoggerInitError::TimeFormatErr(out_of_range()).message_with("bad year"),
        "Failed to format current time: bad year"
    );
    assert_eq!(
        LoggerInitError::CreateFileErr(not_found()).message_with("denied"),
        "Failed to create logfile: denied"
    );
    assert_eq!(
        LoggerInitError::SetLoggerErr(refusal()).message_with("taken"),
        "Failed to set logger: taken"
    );
    assert_eq!(
        LoggerInitError::SetLoggerErr(refusal()).message_with(""),
        "Failed to set logger: "
    );
}

#[test]
fn a_message_ends_with_the_words_of_its_cause() {
    assert_eq!(
        LoggerInitError::ExePathGetErr(not_found()).message(),
        "Failed to get the current exe path: no such file"
    );
    assert_eq!(
        LoggerInitError::NonUTF8Path.message(),
        "Exe path contained non-UTF8 characters"
    );
    assert_eq!(
        LoggerInitError::TimeFormatErr(out_of_range()).message(),
        format!("Failed to format current time: {}", out_of_range())
    );
    assert_eq!(
        LoggerInitError::CreateFileErr(not_found()).message(),
        "Failed to create logfile: no such file"
    );
    assert_eq!(
        LoggerInitError::SetLoggerErr(refusal()).message(),
        format!("Failed to set logger: {}", refusal())
    );
}

#[test]
fn the_causes_convert_into_their_errors() {
    assert!(matches!(
        LoggerInitError::from(out_of_range()),
        LoggerInitError::TimeFormatErr(time::Error::ComponentRange(_))
    ));
    assert!(matches!(LoggerInitError::from(refusal()), LoggerInitError::SetLoggerErr(_)));
}
