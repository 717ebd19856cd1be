use esp_idf_svc::error::ESP_ERR_INVALID_ARG;
use esp_idf_svc::logging::{set_target_level, EspLogger, Level, LevelFilter};

#[test]
fn level_codes_follow_the_native_levels() {
    assert_eq!(Level::Error.to_code(), 1);
    assert_eq!(Level::Trace.to_code(), 5);
    assert_eq!(LevelFilter::Off.to_code(), 0);
    assert_eq!(LevelFilter::Debug.to_code(), 4);
    assert_eq!(LevelFilter::from_code(0), LevelFilter::Off);
    assert_eq!(LevelFilter::from_code(3), LevelFilter::Info);
    assert_eq!(LevelFilter::from_code(42), LevelFilter::Trace);
    assert_eq!(Level::from_code(0), Level::Trace);
    assert_eq!(Level::from_code(2), Level::Warn);
}

#[test]
fn filter_codes_round_trip() {
    for f in [
        LevelFilter::Off,
        LevelFilter::Error,
        LevelFilter::Warn,
        LevelFilter::Info,
        LevelFilter::Debug,
        LevelFilter::Trace,
    ] {
        assert_eq!(LevelFilter::from_code(f.to_code()), f);
    }
    for l in [Level::Error, Level::Warn, Level::Info, Level::Debug, Level::Trace] {
        assert_eq!(Level::from_code(l.to_code()), l);
    }
}

#[test]
fn max_level_is_the_configured_one() {
    let logger = EspLogger;
    assert_eq!(logger.get_max_level(), LevelFilter::Info);
    assert!(logger.enabled(Level::Info));
    assert!(logger.enabled(Level::Error));
    assert!(!logger.enabled(Level::Debug));
}

#[test]
fn initialize_applies_the_max_level() {
    let logger = EspLogger;
    assert_eq!(logger.initialize_default(true), LevelFilter::Info);
    assert_eq!(logger.initialize(), LevelFilter::Info);
}

#[test]
fn markers_and_colors() {
    assert_eq!(EspLogger::get_marker(Level::Error), "E");
    assert_eq!(EspLogger::get_marker(Level::Warn), "W");
    assert_eq!(EspLogger::get_marker(Level::Info), "I");
    assert_eq!(EspLogger::get_marker(Level::Debug), "D");
    assert_eq!(EspLogger::get_marker(Level::Trace), "V");
    assert_eq!(EspLogger::get_color(Level::Error), Some(31));
    assert_eq!(EspLogger::get_color(Level::Warn), Some(33));
    assert_eq!(EspLogger::get_color(Level::Info), Some(32));
    assert_eq!(EspLogger::get_color(Level::Debug), None);
}

#[test]
fn log_lines() {
    assert_eq!(
        EspLogger::format_line(Level::Debug, 1234, "wifi", "connected"),
        "D (1234) wifi: connected\n"
    );
    assert_eq!(
        EspLogger::format_line(Level::Error, 7, "app", "boom"),
        "\x1b[0;31mE (7) app: boom\x1b[0m\n"
    );
}

#[test]
fn should_log_compares_with_the_target_level() {
    assert!(EspLogger::should_log(Level::Warn, "net", || 3));
    assert!(!EspLogger::should_log(Level::Debug, "net", || 3));
    // A target that cannot be handed to C is always logged, without a query.
    assert!(EspLogger::should_log(Level::Trace, "bad\0target", || panic!("not queried")));
}

#[test]
fn target_levels() {
    assert_eq!(set_target_level("wifi", LevelFilter::Warn), Ok(2));
    assert_eq!(
        set_target_level("wi\0fi", LevelFilter::Warn).unwrap_err().code(),
        ESP_ERR_INVALID_ARG
    );
}
