use workix_desktop::logging::{log_message, LogLevel, LogStream};

#[test]
fn errors_go_to_standard_error() {
    let line = log_message("error", "disk full");
    assert_eq!(line.stream, LogStream::Stderr);
    assert_eq!(line.text, "[ERROR] disk full");
}

#[test]
fn warnings_and_infos_go_to_standard_output() {
    let line = log_message("warn", "disk nearly full");
    assert_eq!(line.stream, LogStream::Stdout);
    assert_eq!(line.text, "[WARN] disk nearly full");
    let line = log_message("info", "started");
    assert_eq!(line.stream, LogStream::Stdout);
    assert_eq!(line.text, "[INFO] started");
}

#[test]
fn unknown_levels_are_logged_as_debug() {
    for level in ["debug", "trace", "", "fatal", "warning", "err", " error"] {
        let line = log_message(level, "detail");
        assert_eq!(line.stream, LogStream::Stdout);
        assert_eq!(line.text, "[DEBUG] detail");
    }
}

#[test]
fn level_names_are_read_in_any_case() {
    assert_eq!(LogLevel::parse("ERROR"), LogLevel::Error);
    assert_eq!(LogLevel::parse("Error"), LogLevel::Error);
    assert_eq!(LogLevel::parse("WARN"), LogLevel::Warn);
    assert_eq!(LogLevel::parse("wArN"), LogLevel::Warn);
    assert_eq!(LogLevel::parse("Info"), LogLevel::Info);
    assert_eq!(LogLevel::parse("DEBUG"), LogLevel::Debug);
    assert_eq!(log_message("ERROR", "x").stream, LogStream::Stderr);
}

#[test]
fn lower_casing_follows_unicode() {
    // The Kelvin sign has the lower-case form k, which no level name holds.
    assert_eq!(LogLevel::parse("\u{212a}"), LogLevel::Debug);
    // The dotted capital I lower-cases to an i with a combining dot.
    assert_eq!(LogLevel::parse("\u{130}NFO"), LogLevel::Debug);
}

#[test]
fn from_lower_matches_exact_names_only() {
    assert_eq!(LogLevel::from_lower("error"), LogLevel::Error);
    assert_eq!(LogLevel::from_lower("warn"), LogLevel::Warn);
    assert_eq!(LogLevel::from_lower("info"), LogLevel::Info);
    assert_eq!(LogLevel::from_lower("ERROR"), LogLevel::Debug);
    assert_eq!(LogLevel::from_lower("anything"), LogLevel::Debug);
}

#[test]
fn tags_and_streams_of_the_levels() {
    assert_eq!(LogLevel::Error.tag_str(), "[ERROR]");
    assert_eq!(LogLevel::Warn.tag_str(), "[WARN]");
    assert_eq!(LogLevel::Info.tag_str(), "[INFO]");
    assert_eq!(LogLevel::Debug.tag_str(), "[DEBUG]");
    assert_eq!(LogLevel::Error.output(), LogStream::Stderr);
    assert_eq!(LogLevel::Warn.output(), LogStream::Stdout);
    assert_eq!(LogLevel::Info.output(), LogStream::Stdout);
    assert_eq!(LogLevel::Debug.output(), LogStream::Stdout);
}

#[test]
fn the_message_is_kept_as_it_is() {
    assert_eq!(log_message("info", "").text, "[INFO] ");
    assert_eq!(log_message("info", "  two\nlines ").text, "[INFO]   two\nlines ");
}
