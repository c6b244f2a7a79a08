use shelllog::{
    component, fault_report, format_line, indent_payload, indent_trace, initial_level, is_blank,
    location_text, parse_level, set_crate_log, trim_leading, set_level, split_lines, Level, LevelError, Logger,
};

const HINT: &str = "  Run with RUST_BACKTRACE=1 environment variable to display backtrace";

#[test]
fn parse_accepts_names_in_any_case() {
    assert_eq!(parse_level("error"), Ok(Level::Error));
    assert_eq!(parse_level("WaRn"), Ok(Level::Warn));
    assert_eq!(parse_level("INFO"), Ok(Level::Info));
    assert_eq!(parse_level("debug"), Ok(Level::Debug));
    assert_eq!(parse_level("Trace"), Ok(Level::Trace));
}

#[test]
fn parse_refuses_unknown_text() {
    assert_eq!(parse_level("verbose"), Err(LevelError::InvalidLevel));
    assert_eq!(parse_level("off"), Err(LevelError::InvalidLevel));
    assert_eq!(parse_level(""), Err(LevelError::InvalidLevel));
    assert_eq!(parse_level(" info"), Err(LevelError::InvalidLevel));
}

#[test]
fn initial_level_defaults_to_info() {
    assert_eq!(initial_level(Some("verbose")), Level::Info);
    assert_eq!(initial_level(None), Level::Info);
    assert_eq!(initial_level(Some("debug")), Level::Debug);
    assert_eq!(initial_level(Some("ERROR")), Level::Error);
}

#[test]
fn level_names_and_order() {
    assert_eq!(Level::Error.as_str(), "ERROR");
    assert_eq!(Level::Warn.as_str(), "WARN");
    assert_eq!(Level::Trace.as_str(), "TRACE");
    assert!(Level::Error.within(&Level::Warn));
    assert!(Level::Info.within(&Level::Info));
    assert!(!Level::Debug.within(&Level::Info));
    assert_eq!(Level::Error.rank(), 1);
    assert_eq!(Level::Trace.rank(), 5);
}

#[test]
fn component_is_text_before_first_separator() {
    assert_eq!(component("app::net::http"), "app");
    assert_eq!(component("app"), "app");
    assert_eq!(component("a:b::c"), "a:b");
    assert_eq!(component("::x"), "");
    assert_eq!(component(""), "");
}

#[test]
fn filter_is_monotone() {
    let logger = Logger::new(Level::Debug);
    let levels = [Level::Error, Level::Warn, Level::Info, Level::Debug, Level::Trace];
    for (i, a) in levels.iter().enumerate() {
        for b in levels[i..].iter() {
            if logger.enabled(*b, "app") {
                assert!(logger.enabled(*a, "app"));
            }
        }
    }
    assert!(logger.enabled(Level::Debug, "app"));
    assert!(!logger.enabled(Level::Trace, "app"));
}

#[test]
fn first_override_wins() {
    let mut logger = Logger::new(Level::Warn);
    set_crate_log(&mut logger, "net", Level::Info);
    set_crate_log(&mut logger, "net", Level::Error);
    assert_eq!(logger.threshold_for("net"), Level::Info);
    assert!(logger.enabled(Level::Info, "net::http"));
    assert!(!logger.enabled(Level::Debug, "net"));
    assert_eq!(logger.threshold_for("db"), Level::Warn);
}

#[test]
fn set_level_twice_is_set_level_once() {
    let mut once = Logger::new(Level::Trace);
    let mut twice = Logger::new(Level::Trace);
    set_level(&mut once, Level::Warn);
    set_level(&mut twice, Level::Warn);
    set_level(&mut twice, Level::Warn);
    let levels = [Level::Error, Level::Warn, Level::Info, Level::Debug, Level::Trace];
    for l in levels.iter() {
        assert_eq!(once.enabled(*l, "app"), twice.enabled(*l, "app"));
    }
    assert_eq!(twice.level(), Level::Warn);
}

#[test]
fn threshold_is_inclusive() {
    let mut logger = Logger::new(Level::Info);
    logger.set_level(Level::Warn);
    assert!(logger.enabled(Level::Warn, "app"));
    assert!(!logger.enabled(Level::Info, "app"));
    set_crate_log(&mut logger, "db", Level::Debug);
    assert!(logger.enabled(Level::Debug, "db::pool"));
    assert!(!logger.enabled(Level::Trace, "db::pool"));
}

#[test]
fn every_registration_is_kept() {
    let mut logger = Logger::new(Level::Error);
    let names = ["a", "b", "c", "d", "e", "f", "g", "h"];
    for n in names.iter() {
        set_crate_log(&mut logger, n, Level::Trace);
    }
    for n in names.iter() {
        assert_eq!(logger.threshold_for(n), Level::Trace);
    }
    assert_eq!(logger.threshold_for("z"), Level::Error);
}

#[test]
fn line_layout() {
    assert_eq!(
        format_line("2024-01-02 03:04:05", "INFO", "app::db", "ready\tnow"),
        "2024-01-02 03:04:05 INFO: app::db - ready\tnow"
    );
    assert_eq!(format_line("", "", "", ""), " :  - ");
}

#[test]
fn render_filters_and_formats() {
    let logger = Logger::new(Level::Info);
    assert_eq!(logger.render(Level::Debug, "app", "hidden"), None);
    let line = logger.render(Level::Warn, "app::x", "shown").unwrap();
    assert!(line.ends_with(" - shown"));
    assert!(line.contains("WARN"));
    assert!(line.contains("app::x"));
}

#[test]
fn colorize_keeps_the_level_name() {
    let logger = Logger::new(Level::Info);
    let tag = logger.colorize(Level::Error);
    assert!(tag == "ERROR" || tag == "\x1b[31mERROR\x1b[0m");
    let tag = logger.colorize(Level::Trace);
    assert!(tag == "TRACE" || tag == "\x1b[35mTRACE\x1b[0m");
}

#[test]
fn lines_are_split_like_str_lines() {
    assert_eq!(split_lines("a\r\nb\n\nc\n"), vec!["a", "b", "", "c"]);
    assert_eq!(split_lines(""), Vec::<String>::new());
    assert_eq!(split_lines("x\r"), vec!["x\r"]);
    assert_eq!(split_lines("\n"), vec![""]);
}

#[test]
fn blank_lines() {
    assert!(is_blank(""));
    assert!(is_blank(" \t\r\u{3000}"));
    assert!(!is_blank("  x "));
}

#[test]
fn payload_is_reindented() {
    assert_eq!(indent_payload("boom\n  detail"), "boom\n\t\t||  detail");
    assert_eq!(indent_payload("  head\n\t\u{3000}x y "), "head\n\t\t||  x y ");
    assert_eq!(indent_payload("a\n\n   \nb\r\n"), "a\n\t\t||  b");
    assert_eq!(indent_payload("\nfirst"), "\t\t||  first");
    assert_eq!(indent_payload(""), "");
}

#[test]
fn trace_is_marked() {
    assert_eq!(indent_trace("a\nb"), "\t\t|a\n\t\t|b");
    assert_eq!(indent_trace(HINT), format!("\t\t|{}", HINT));
    assert_eq!(indent_trace(""), "");
}

#[test]
fn fault_report_without_backtrace() {
    let report = fault_report(Some("src/main.rs:3:9"), Some("boom\n  detail"), None);
    assert!(report.starts_with("Panic occurred at: "));
    assert!(report.contains("src/main.rs:3:9"));
    assert!(report.contains("\n\t\t-----------------> "));
    assert!(report.contains("boom\n\t\t||  detail"));
    assert!(report.ends_with(&format!("\n\t\t|{}", HINT)));
}

#[test]
fn fault_report_placeholders() {
    let report = fault_report(None, None, Some("frame 0\nframe 1"));
    assert!(report.contains("Unknown location"));
    assert!(report.contains("Unknown Payload"));
    assert!(report.ends_with("\n\t\t|frame 0\n\t\t|frame 1"));
}

#[test]
fn location_is_file_line_column() {
    assert_eq!(location_text("src/main.rs", 42, 7), "src/main.rs:42:7");
    assert_eq!(location_text("lib.rs", 0, 4294967295), "lib.rs:0:4294967295");
    assert_eq!(location_text("", 10, 100), ":10:100");
}

#[test]
fn leading_white_space_is_trimmed() {
    assert_eq!(trim_leading("  \t detail "), "detail ");
    assert_eq!(trim_leading("x"), "x");
    assert_eq!(trim_leading("   "), "");
}

#[test]
fn render_at_uses_the_given_time() {
    let logger = Logger::new(Level::Info);
    assert_eq!(logger.render_at("2024-01-02 03:04:05", Level::Trace, "app", "m"), None);
    let line = logger.render_at("2024-01-02 03:04:05", Level::Error, "app::db", "down").unwrap();
    assert!(line.contains("2024-01-02 03:04:05"));
    assert!(line.contains("ERROR"));
    assert!(line.ends_with(" - down"));
}
