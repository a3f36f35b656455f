use denv::cli::Options;
use denv::cli::Verbosity;
use denv::log::LevelFilter;

#[test]
fn should_return_off() {
    let verbosity = Verbosity { count: 4, quiet: true };
    assert_eq!(verbosity.to_log_level(), LevelFilter::Off);
}

#[test]
fn cli_should_return_error() {
    let verbosity = Verbosity { count: 0, quiet: false };
    assert_eq!(verbosity.to_log_level(), LevelFilter::Error);
}

#[test]
fn should_return_warn() {
    let verbosity = Verbosity { count: 1, quiet: false };
    assert_eq!(verbosity.to_log_level(), LevelFilter::Warn);
}

#[test]
fn should_return_info() {
    let verbosity = Verbosity { count: 2, quiet: false };
    assert_eq!(verbosity.to_log_level(), LevelFilter::Info);
}

#[test]
fn should_return_debug() {
    let verbosity = Verbosity { count: 3, quiet: false };
    assert_eq!(verbosity.to_log_level(), LevelFilter::Debug);
}

#[test]
fn should_return_trace() {
    let verbosity = Verbosity { count: 4, quiet: false };
    assert_eq!(verbosity.to_log_level(), LevelFilter::Trace);
}

#[test]
fn should_return_verbosity() {
    let verbosity = Verbosity { count: 1, quiet: false };
    assert_eq!(Verbosity::default(), verbosity);
}

#[test]
fn default_options_use_the_default_config_file() {
    let opts = Options::default();
    assert!(opts.cfg_filepath.is_none());
    assert!(!opts.no_color);
    assert_eq!(opts.verbosity, Verbosity::default());
}
