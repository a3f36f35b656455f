use denv::log::Level;
use denv::log::LevelFilter;
use denv::log::Logger;
use denv::log::format_log_line;

const TRACE_COLOR: &str = "\x1b[0;30m";
const DEBUG_COLOR: &str = "\x1b[0;34m";
const INFO_COLOR: &str = "\x1b[0;32m";
const WARN_COLOR: &str = "\x1b[0;33m";
const ERROR_COLOR: &str = "\x1b[0;31m";

const APP_NAME: &str = "denv";

fn all_levels() -> Vec<(Level, &'static str)> {
    vec![
        (Level::Trace, "trace"),
        (Level::Debug, "debug"),
        (Level::Info, "info"),
        (Level::Warn, "warn"),
        (Level::Error, "error"),
    ]
}

fn color_of(level: Level) -> &'static str {
    match level {
        Level::Trace => TRACE_COLOR,
        Level::Debug => DEBUG_COLOR,
        Level::Info => INFO_COLOR,
        Level::Warn => WARN_COLOR,
        Level::Error => ERROR_COLOR,
    }
}

fn logged(with_color: bool) -> String {
    let mut logger = Logger::new(LevelFilter::Trace, with_color, vec![]);
    for (level, log) in all_levels() {
        logger.log(level, log);
    }
    let mut res = logger.out.join("\n");
    res.push('\n');
    res
}

#[test]
fn should_return_logger() {
    let lvl = LevelFilter::Trace;
    let with_color = true;
    let logger = Logger::new(lvl, with_color, vec![]);
    assert_eq!(logger.lvl, lvl);
    assert_eq!(logger.with_color, with_color);
}

#[test]
fn logger_should_return_false() {
    let logger = Logger::new(LevelFilter::Error, true, vec![]);
    assert!(!logger.enabled(Level::Warn));
}

#[test]
fn logger_should_return_true() {
    let logger = Logger::new(LevelFilter::Warn, true, vec![]);
    assert!(logger.enabled(Level::Error));
}

#[test]
fn log_should_return_false() {
    let logger = Logger::new(LevelFilter::Error, true, vec![]);
    assert!(!logger.enabled(Level::Warn));
}

#[test]
fn log_should_return_true() {
    let logger = Logger::new(LevelFilter::Warn, true, vec![]);
    assert!(logger.enabled(Level::Error));
}

#[test]
fn should_return_colorized_logs() {
    let mut logs = all_levels()
        .iter()
        .map(|(level, log)| format!("{}[{}] {}\x1b", color_of(*level), APP_NAME, log))
        .reduce(|logs, log| format!("{}\n{}", logs, log))
        .unwrap();
    logs.push('\n');
    assert_eq!(logged(true), logs);
}

#[test]
fn should_return_uncolorized_logs() {
    let mut logs = all_levels()
        .iter()
        .map(|(_, log)| format!("[{}] {}", APP_NAME, log))
        .reduce(|logs, log| format!("{}\n{}", logs, log))
        .unwrap();
    logs.push('\n');
    assert_eq!(logged(false), logs);
}

#[test]
fn format_log_line_keeps_message_without_color() {
    assert_eq!(format_log_line(false, Level::Info, "hello"), "[denv] hello");
}

#[test]
fn format_log_line_wraps_message_in_color() {
    assert_eq!(
        format_log_line(true, Level::Error, "boom"),
        format!("{}[denv] boom\x1b", ERROR_COLOR)
    );
}
