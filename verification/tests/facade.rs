//! Runtime checks of the facade's selection and expansion rules, one per
//! feature configuration and per severity level.

use l0g::backend::Backend;
use l0g::backend::SelectError;
use l0g::backend::select_backend;
use l0g::expansion::FormatExpansion;
use l0g::expansion::Level;
use l0g::expansion::LogExpansion;
use l0g::expansion::expand_format;
use l0g::expansion::expand_log;
use l0g::expansion::format_expansion;
use l0g::expansion::log_expansion;

#[test]
fn select_binary_flag_picks_binary() {
    assert_eq!(select_backend(true, false), Ok(Backend::Binary));
}

#[test]
fn select_text_flag_picks_text() {
    assert_eq!(select_backend(false, true), Ok(Backend::Text));
}

#[test]
fn select_no_flag_picks_off() {
    assert_eq!(select_backend(false, false), Ok(Backend::Off));
}

#[test]
fn select_both_flags_is_a_fault() {
    assert_eq!(
        select_backend(true, true),
        Err(SelectError::ConflictingBackends)
    );
}

#[test]
fn binary_backend_forwards_every_level() {
    let levels = vec![
        Level::Error,
        Level::Warn,
        Level::Info,
        Level::Debug,
        Level::Trace,
    ];
    for level in levels {
        assert_eq!(
            log_expansion(Backend::Binary, level),
            LogExpansion::BinaryCall(level)
        );
    }
}

#[test]
fn text_backend_forwards_every_level() {
    let levels = vec![
        Level::Error,
        Level::Warn,
        Level::Info,
        Level::Debug,
        Level::Trace,
    ];
    for level in levels {
        assert_eq!(
            log_expansion(Backend::Text, level),
            LogExpansion::TextCall(level)
        );
    }
}

#[test]
fn off_backend_silences_every_level() {
    let levels = vec![
        Level::Error,
        Level::Warn,
        Level::Info,
        Level::Debug,
        Level::Trace,
    ];
    for level in levels {
        assert_eq!(log_expansion(Backend::Off, level), LogExpansion::Nothing);
    }
}

#[test]
fn format_mark_follows_the_backend() {
    assert_eq!(format_expansion(Backend::Binary), FormatExpansion::BinaryFormat);
    assert_eq!(format_expansion(Backend::Text), FormatExpansion::TextDebug);
    assert_eq!(format_expansion(Backend::Off), FormatExpansion::Unchanged);
}

#[test]
fn expand_log_under_each_configuration() {
    assert_eq!(
        expand_log(true, false, Level::Info),
        Ok(LogExpansion::BinaryCall(Level::Info))
    );
    assert_eq!(
        expand_log(false, true, Level::Error),
        Ok(LogExpansion::TextCall(Level::Error))
    );
    assert_eq!(
        expand_log(false, false, Level::Trace),
        Ok(LogExpansion::Nothing)
    );
}

#[test]
fn expand_log_rejects_conflicting_flags() {
    assert_eq!(
        expand_log(true, true, Level::Warn),
        Err(SelectError::ConflictingBackends)
    );
}

#[test]
fn expand_format_under_each_configuration() {
    assert_eq!(expand_format(true, false), Ok(FormatExpansion::BinaryFormat));
    assert_eq!(expand_format(false, true), Ok(FormatExpansion::TextDebug));
    assert_eq!(expand_format(false, false), Ok(FormatExpansion::Unchanged));
}

#[test]
fn expand_format_rejects_conflicting_flags() {
    assert_eq!(
        expand_format(true, true),
        Err(SelectError::ConflictingBackends)
    );
}
