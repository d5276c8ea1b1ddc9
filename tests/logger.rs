use svclog::pipeline::{resolve_threshold, InitError, Logger, LoggerOptions, Pipeline};
use svclog::render::{render_json, render_plain, Color};
use svclog::severity::{parse_severity, Severity};
use svclog::timestamp::{format_day_first, format_iso, DateTime};

const DIM_OPEN_SQUARE: &str = "\x1b[90m[\x1b[39m";
const DIM_CLOSE_SQUARE: &str = "\x1b[90m]\x1b[39m";
const DIM_OPEN_ROUND: &str = "\x1b[90m(\x1b[39m";
const DIM_CLOSE_ROUND: &str = "\x1b[90m)\x1b[39m";

fn opts(level: Option<&str>, json: Option<bool>) -> Option<LoggerOptions> {
    Some(LoggerOptions { level: level.map(|l| l.to_string()), json })
}

fn instant() -> DateTime {
    DateTime { year: 2024, month: 3, day: 5, hour: 7, minute: 8, second: 9 }
}

fn is_day_first_stamp(s: &str) -> bool {
    let b = s.as_bytes();
    b.len() == 19
        && b.iter().enumerate().all(|(i, c)| match i {
            2 | 5 => *c == b'-',
            10 => *c == b' ',
            13 | 16 => *c == b':',
            _ => c.is_ascii_digit(),
        })
}

#[test]
fn warn_line_for_api_service() {
    let mut p = Pipeline::new();
    let logger = Logger::new(&mut p, "api".to_string(), opts(Some("info"), None), None).unwrap();
    let line = logger.warn(&p, "disk low".to_string()).unwrap();
    let head = format!("{}\x1b[94m", DIM_OPEN_SQUARE);
    assert!(line.starts_with(&head));
    let stamp = &line[head.len()..head.len() + 19];
    assert!(is_day_first_stamp(stamp), "{stamp}");
    let tail = format!(
        "\x1b[39m{}{}\x1b[95mapi\x1b[39m{}{}\x1b[33mWARN\x1b[39m{} disk low\n",
        DIM_CLOSE_SQUARE, DIM_OPEN_ROUND, DIM_CLOSE_ROUND, DIM_OPEN_SQUARE, DIM_CLOSE_SQUARE
    );
    assert_eq!(&line[head.len() + 19..], tail);
}

#[test]
fn json_error_only_above_threshold() {
    let mut p = Pipeline::new();
    let logger = Logger::new(&mut p, "svc".to_string(), opts(Some("error"), Some(true)), None).unwrap();
    assert_eq!(logger.info(&p, "skip me".to_string()), None);
    let line = logger.error(&p, "boom".to_string()).unwrap();
    assert!(line.starts_with("{\"timestamp\":\""));
    assert!(line.contains("\"level\":\"ERROR\""));
    assert!(line.contains("\"message\":\"boom\""));
    assert!(line.ends_with("}\n"));
    assert_eq!(line.matches('\n').count(), 1);
    assert!(!line.contains('\x1b'));
}

#[test]
fn override_beats_configured_level() {
    let mut p = Pipeline::new();
    let logger =
        Logger::new(&mut p, "svc".to_string(), opts(Some("trace"), None), Some("warn")).unwrap();
    assert_eq!(logger.info(&p, "dropped".to_string()), None);
    assert!(logger.warn(&p, "kept".to_string()).is_some());
}

#[test]
fn first_construction_wins() {
    let mut p = Pipeline::new();
    let first = Logger::new(&mut p, "first".to_string(), opts(Some("warn"), Some(false)), None).unwrap();
    let second =
        Logger::new(&mut p, "second".to_string(), opts(Some("trace"), Some(true)), None).unwrap();
    let third = Logger::new(&mut p, "third".to_string(), None, Some("debug")).unwrap();
    for l in [first, second, third] {
        assert_eq!(l.debug(&p, "d".to_string()), None);
        assert_eq!(l.info(&p, "i".to_string()), None);
        let line = l.warn(&p, "w".to_string()).unwrap();
        assert!(line.contains("\x1b[95mfirst\x1b[39m"));
        assert!(!line.starts_with('{'));
    }
}

#[test]
fn later_request_ignored_even_when_invalid() {
    let mut p = Pipeline::new();
    Logger::new(&mut p, "svc".to_string(), None, None).unwrap();
    assert!(Logger::new(&mut p, "other".to_string(), opts(Some("loud"), None), None).is_ok());
    let line = p.emit(Severity::Info, "x", instant()).unwrap();
    assert!(line.contains("\x1b[95msvc\x1b[39m"));
}

#[test]
fn failed_init_leaves_pipeline_empty_and_retry_works() {
    let mut p = Pipeline::new();
    let r = Logger::new(&mut p, "svc".to_string(), opts(Some("loud"), None), None);
    assert_eq!(r.err(), Some(InitError::UnknownLevel));
    assert!(!p.is_initialized());
    assert_eq!(p.emit(Severity::Error, "x", instant()), None);
    assert!(Logger::new(&mut p, "svc".to_string(), opts(Some("debug"), None), None).is_ok());
    assert!(p.is_initialized());
    assert!(p.emit(Severity::Debug, "x", instant()).is_some());
    assert_eq!(p.emit(Severity::Trace, "x", instant()), None);
}

#[test]
fn default_options_give_info_plain() {
    let mut p = Pipeline::new();
    Logger::new(&mut p, "svc".to_string(), None, None).unwrap();
    assert_eq!(p.emit(Severity::Debug, "x", instant()), None);
    let line = p.emit(Severity::Info, "x", instant()).unwrap();
    assert_eq!(line, render_plain(instant(), "svc", Severity::Info, "x"));
}

#[test]
fn threshold_is_a_cut_of_the_order() {
    let all = [Severity::Trace, Severity::Debug, Severity::Info, Severity::Warn, Severity::Error];
    for threshold in all {
        for (i, s1) in all.iter().enumerate() {
            for s2 in &all[i..] {
                if s1.is_admitted_by(threshold) {
                    assert!(s2.is_admitted_by(threshold));
                }
            }
        }
    }
    let mut p = Pipeline::new();
    Logger::new(&mut p, "svc".to_string(), opts(Some("warn"), None), None).unwrap();
    assert_eq!(p.emit(Severity::Trace, "x", instant()), None);
    assert_eq!(p.emit(Severity::Debug, "x", instant()), None);
    assert_eq!(p.emit(Severity::Info, "x", instant()), None);
    assert!(p.emit(Severity::Warn, "x", instant()).is_some());
    assert!(p.emit(Severity::Error, "x", instant()).is_some());
}

#[test]
fn json_mode_has_no_escapes_plain_mode_has_them() {
    let mut pj = Pipeline::new();
    Logger::new(&mut pj, "s\x1bv".to_string(), opts(Some("trace"), Some(true)), None).unwrap();
    let mut pp = Pipeline::new();
    Logger::new(&mut pp, "svc".to_string(), opts(Some("trace"), Some(false)), None).unwrap();
    for s in [Severity::Trace, Severity::Debug, Severity::Info, Severity::Warn, Severity::Error] {
        let j = pj.emit(s, "bell\x1b[31m", instant()).unwrap();
        assert!(!j.contains('\x1b'));
        let t = pp.emit(s, "m", instant()).unwrap();
        assert!(t.starts_with(DIM_OPEN_SQUARE));
    }
}

#[test]
fn plain_line_exact() {
    let line = render_plain(instant(), "api", Severity::Error, "it broke");
    let expected = format!(
        "{}\x1b[94m05-03-2024 07:08:09\x1b[39m{}{}\x1b[95mapi\x1b[39m{}{}\x1b[31mERROR\x1b[39m{} it broke\n",
        DIM_OPEN_SQUARE, DIM_CLOSE_SQUARE, DIM_OPEN_ROUND, DIM_CLOSE_ROUND, DIM_OPEN_SQUARE,
        DIM_CLOSE_SQUARE
    );
    assert_eq!(line, expected);
}

#[test]
fn level_tag_colors() {
    let cases = [
        (Severity::Error, "\x1b[31mERROR\x1b[39m", Color::Red),
        (Severity::Warn, "\x1b[33mWARN\x1b[39m", Color::Yellow),
        (Severity::Info, "\x1b[36mINFO\x1b[39m", Color::Cyan),
        (Severity::Debug, "\x1b[32mDEBUG\x1b[39m", Color::Green),
        (Severity::Trace, "\x1b[35mTRACE\x1b[39m", Color::Magenta),
    ];
    for (s, tag, color) in cases {
        assert_eq!(s.color(), color);
        assert!(render_plain(instant(), "svc", s, "m").contains(tag));
    }
}

#[test]
fn json_line_exact_with_escapes() {
    let line = render_json(instant(), "a\"pi", Severity::Warn, "x\\y\nz\t\r\u{1}\u{1b}é");
    assert_eq!(
        line,
        "{\"timestamp\":\"2024-03-05T07:08:09Z\",\"level\":\"WARN\",\"service\":\"a\\\"pi\",\"message\":\"x\\\\y\\nz\\t\\r\\u0001\\u001bé\"}\n"
    );
}

#[test]
fn timestamp_forms() {
    assert_eq!(format_day_first(instant()), "05-03-2024 07:08:09");
    assert_eq!(format_iso(instant()), "2024-03-05T07:08:09Z");
    let old = DateTime { year: -44, month: 3, day: 15, hour: 23, minute: 59, second: 0 };
    assert_eq!(format_day_first(old), "15-03--0044 23:59:00");
    assert_eq!(format_iso(old), "-0044-03-15T23:59:00Z");
    let far = DateTime { year: 12345, month: 12, day: 31, hour: 0, minute: 0, second: 0 };
    assert_eq!(format_iso(far), "12345-12-31T00:00:00Z");
}

#[test]
fn level_names_parse() {
    assert_eq!(parse_severity("warn"), Some(Severity::Warn));
    assert_eq!(parse_severity("WaRn"), Some(Severity::Warn));
    assert_eq!(parse_severity("TRACE"), Some(Severity::Trace));
    assert_eq!(parse_severity("1"), None);
    assert_eq!(parse_severity("5"), None);
    assert_eq!(parse_severity("+3"), None);
    assert_eq!(parse_severity("+"), None);
    assert_eq!(parse_severity("0"), None);
    assert_eq!(parse_severity("6"), None);
    assert_eq!(parse_severity("warning"), None);
    assert_eq!(parse_severity(""), None);
}

#[test]
fn threshold_resolution() {
    assert_eq!(resolve_threshold(None, None), Ok(Severity::Info));
    assert_eq!(resolve_threshold(Some("warn"), Some("trace")), Ok(Severity::Warn));
    assert_eq!(resolve_threshold(Some("bogus"), Some("error")), Err(InitError::UnknownOverride));
    assert_eq!(resolve_threshold(Some("bogus"), None), Err(InitError::UnknownOverride));
    assert_eq!(resolve_threshold(Some("3"), Some("info")), Err(InitError::UnknownOverride));
    assert_eq!(resolve_threshold(None, Some("3")), Err(InitError::UnknownLevel));
    assert_eq!(resolve_threshold(Some("TRACE"), None), Ok(Severity::Trace));
    assert_eq!(resolve_threshold(None, Some("loud")), Err(InitError::UnknownLevel));
    assert_eq!(resolve_threshold(Some("debug"), Some("loud")), Ok(Severity::Debug));
}

#[test]
fn severity_order_and_tags() {
    assert_eq!(Severity::Trace.order(), 0);
    assert_eq!(Severity::Error.order(), 4);
    assert_eq!(Severity::Debug.tag(), "DEBUG");
    assert_eq!(Severity::Info.tag(), "INFO");
    assert!(Severity::Error.is_admitted_by(Severity::Warn));
    assert!(!Severity::Info.is_admitted_by(Severity::Warn));
}

#[test]
fn emitted_line_uses_current_time() {
    let mut p = Pipeline::new();
    let logger = Logger::new(&mut p, "svc".to_string(), opts(Some("debug"), Some(true)), None).unwrap();
    let line = logger.debug(&p, "now".to_string()).unwrap();
    let stamp = &line["{\"timestamp\":\"".len().."{\"timestamp\":\"".len() + 20];
    assert!(stamp.ends_with('Z'));
    assert!(stamp[..4].parse::<i32>().unwrap() >= 2024);
}

#[test]
fn unparseable_override_is_fatal() {
    let mut p = Pipeline::new();
    let r = Logger::new(&mut p, "svc".to_string(), None, Some("verbose"));
    assert_eq!(r.err(), Some(InitError::UnknownOverride));
    assert!(!p.is_initialized());
    let r = Logger::new(&mut p, "svc".to_string(), opts(Some("info"), None), Some("2"));
    assert_eq!(r.err(), Some(InitError::UnknownOverride));
    assert!(!p.is_initialized());
}

#[test]
fn numeric_level_is_fatal() {
    let mut p = Pipeline::new();
    let r = Logger::new(&mut p, "svc".to_string(), opts(Some("3"), None), None);
    assert_eq!(r.err(), Some(InitError::UnknownLevel));
    assert!(!p.is_initialized());
}

#[test]
fn filtered_event_yields_nothing() {
    let mut p = Pipeline::new();
    let logger = Logger::new(&mut p, "svc".to_string(), opts(Some("error"), None), None).unwrap();
    assert!(!p.passes(Severity::Warn));
    assert!(p.passes(Severity::Error));
    assert_eq!(logger.warn(&p, "w".to_string()), None);
}
