use redis_file_monitor::cli::{ArgError, Cli};
use std::path::PathBuf;

/// Test CLI parsing to ensure correct argument behavior.
#[test]
fn test_cli_parsing() {
    let args = Cli::parse_from(&[
        "redis-file-monitor",
        "--redis-cli",
        "/custom/path/to/redis-cli",
        "--watch-dir",
        "/some/directory",
    ]);

    assert_eq!(args.redis_cli, "/custom/path/to/redis-cli");
    assert_eq!(PathBuf::from(&args.watch_dir), PathBuf::from("/some/directory"));
}

/// Test dry-run mode outputs correct values.
#[test]
fn test_dry_run_mode() {
    let args = Cli::parse_from(&["redis-file-monitor", "--dry-run"]);
    assert!(args.dry_run);
}

#[test]
fn defaults_apply_when_options_are_absent() {
    let args = Cli::parse_from(&["redis-file-monitor"]);
    assert_eq!(args.redis_cli, "redis-cli");
    assert_eq!(args.watch_dir, ".");
    assert!(!args.dry_run);
}

#[test]
fn empty_command_line_takes_defaults() {
    let args = Cli::try_parse_from(&[]).unwrap();
    assert_eq!(args.redis_cli, "redis-cli");
    assert_eq!(args.watch_dir, ".");
}

#[test]
fn options_in_any_order() {
    let args = Cli::parse_from(&["m", "--dry-run", "--watch-dir", "/w", "--redis-cli", "rc"]);
    assert_eq!(args.redis_cli, "rc");
    assert_eq!(args.watch_dir, "/w");
    assert!(args.dry_run);
}

#[test]
fn unknown_argument_is_refused() {
    let r = Cli::try_parse_from(&["m", "--dry-run", "--bogus"]);
    assert_eq!(r.unwrap_err(), ArgError::UnknownArgument(2));
}

#[test]
fn missing_value_is_refused() {
    let r = Cli::try_parse_from(&["m", "--watch-dir"]);
    assert_eq!(r.unwrap_err(), ArgError::MissingValue(1));
}

#[test]
fn repeated_option_is_refused() {
    let r = Cli::try_parse_from(&["m", "--redis-cli", "a", "--redis-cli", "b"]);
    assert_eq!(r.unwrap_err(), ArgError::RepeatedArgument(3));
    let r = Cli::try_parse_from(&["m", "--dry-run", "--dry-run"]);
    assert_eq!(r.unwrap_err(), ArgError::RepeatedArgument(2));
}

#[test]
fn help_and_version_are_reported() {
    assert_eq!(Cli::try_parse_from(&["m", "--help"]).unwrap_err(), ArgError::HelpRequested);
    assert_eq!(Cli::try_parse_from(&["m", "-h"]).unwrap_err(), ArgError::HelpRequested);
    assert_eq!(Cli::try_parse_from(&["m", "--version"]).unwrap_err(), ArgError::VersionRequested);
    assert_eq!(Cli::try_parse_from(&["m", "-V"]).unwrap_err(), ArgError::VersionRequested);
}
