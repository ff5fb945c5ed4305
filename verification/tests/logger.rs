use serwus::logger::enabled;
use serwus::logger::format_date;
use serwus::logger::level_color;
use serwus::logger::line_shape;
use serwus::logger::logger_level;
use serwus::logger::max_level;
use serwus::logger::run_env;
use serwus::logger::Level;
use serwus::logger::LevelColor;
use serwus::logger::LineShape;
use serwus::server::tracing::TracingSpanBuilder;

#[test]
fn logger_level_defaults_to_info() {
    assert_eq!(logger_level(None), "info");
    assert_eq!(logger_level(Some("debug".to_string())), "debug");
    assert_eq!(logger_level(Some(String::new())), "");
    assert_eq!(run_env(None), "dev");
    assert_eq!(run_env(Some("prod".to_string())), "prod");
}

#[test]
fn records_up_to_info_are_printed() {
    assert!(enabled(Level::Error, "info"));
    assert!(enabled(Level::Warn, "info"));
    assert!(enabled(Level::Info, "info"));
    assert!(!enabled(Level::Debug, "info"));
    assert!(!enabled(Level::Trace, "info"));
    assert!(!enabled(Level::Debug, "DEBUG"));
    assert!(!enabled(Level::Debug, ""));
}

#[test]
fn debug_level_prints_everything() {
    assert!(enabled(Level::Debug, "debug"));
    assert!(enabled(Level::Trace, "debug"));
    assert!(enabled(Level::Error, "debug"));
    assert_eq!(max_level("debug"), Level::Debug);
    assert_eq!(max_level("info"), Level::Info);
    assert_eq!(max_level("trace"), Level::Info);
}

#[test]
fn colours_by_level() {
    assert_eq!(level_color(Level::Info), LevelColor::Green);
    assert_eq!(level_color(Level::Error), LevelColor::Red);
    assert_eq!(level_color(Level::Warn), LevelColor::Yellow);
    assert_eq!(level_color(Level::Debug), LevelColor::Yellow);
    assert_eq!(level_color(Level::Trace), LevelColor::Yellow);
}

#[test]
fn severe_records_outside_dev_name_their_source() {
    assert_eq!(line_shape(Level::Error, "prod"), LineShape::WithSource);
    assert_eq!(line_shape(Level::Warn, "stage"), LineShape::WithSource);
    assert_eq!(line_shape(Level::Warn, ""), LineShape::WithSource);
    assert_eq!(line_shape(Level::Error, "dev"), LineShape::WithDate);
    assert_eq!(line_shape(Level::Info, "prod"), LineShape::WithDate);
    assert_eq!(line_shape(Level::Debug, "prod"), LineShape::WithDate);
}

#[test]
fn dates_are_padded_to_two_digits() {
    assert_eq!(format_date(2024, 3, 9, 7, 5, 0), "2024-03-09 07:05:00");
    assert_eq!(format_date(2024, 12, 31, 23, 59, 59), "2024-12-31 23:59:59");
    assert_eq!(format_date(1, 1, 1, 0, 0, 60), "1-01-01 00:00:60");
    assert_eq!(
        format_date(987, 100, 10, 9, 99, 5),
        format!("{}-{:02}-{:02} {:02}:{:02}:{:02}", 987, 100, 10, 9, 99, 5)
    );
}

#[test]
fn own_handlers_are_traced_quietly() {
    for path in ["/_ready", "/_healthcheck", "/_stats", "/_prometheus", "/metrics", "/swagger"] {
        assert_eq!(TracingSpanBuilder::request_level(path), Level::Debug);
    }
    for path in ["/", "", "/_ready/", "/users", "/swagger/index.html", "_ready"] {
        assert_eq!(TracingSpanBuilder::request_level(path), Level::Info);
    }
}
