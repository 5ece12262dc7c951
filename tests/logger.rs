use window_kit::logger::{Level, Logger};

fn stamp_shape(s: &str) -> bool {
    let parts: Vec<&str> = s.split(|c| c == '-' || c == ' ' || c == ':' || c == '.').collect();
    let widths = [(4, 4), (1, 2), (1, 2), (1, 2), (1, 2), (1, 2), (1, 3)];
    parts.len() == 7
        && parts.iter().zip(widths.iter()).all(|(p, (lo, hi))| {
            p.len() >= *lo && p.len() <= *hi && p.chars().all(|c| c.is_ascii_digit())
        })
}

#[test]
fn test_log() {
    let mut logger = Logger::new(3);
    logger.log("Test message");
    let log = logger.output();

    let rest = log.strip_prefix("[INFO] ").expect("info tag");
    let (stamp, msg) = rest.split_once(": ").expect("stamp separator");
    assert!(stamp_shape(stamp), "{}", stamp);
    assert_eq!(msg, "Test message");
}

#[test]
fn test_info_log() {
    let mut logger = Logger::new(3);
    logger.log("Test message");

    assert!(logger.output().starts_with("[INFO]"))
}

#[test]
fn test_warn_log() {
    let mut logger = Logger::new(2);
    logger.wlog("Test message");

    assert!(logger.output().starts_with("[WARNING]"))
}

#[test]
fn test_error_log() {
    let mut logger = Logger::new(1);
    logger.elog("Test message");

    assert!(logger.output().starts_with("[ERROR]"))
}

#[test]
fn threshold_filters_levels() {
    let mut logger = Logger::new(2);
    logger.logln("info");
    logger.wlogln("warning");
    logger.elogln("error");
    let records = logger.records();
    assert_eq!(records.len(), 2);
    assert_eq!(records[0].level, Level::Warning);
    assert_eq!(records[0].message, "warning");
    assert_eq!(records[1].level, Level::Error);

    let mut quiet = Logger::new(0);
    quiet.elogln("error");
    assert!(quiet.records().is_empty());
    assert_eq!(quiet.output(), "");
}

#[test]
fn info_needs_threshold_three_exactly() {
    let mut logger = Logger::new(4);
    logger.logln("info");
    logger.wlogln("warning");
    assert_eq!(logger.records().len(), 1);
    assert_eq!(logger.records()[0].level, Level::Warning);
    assert_eq!(logger.threshold(), 4);
}

#[test]
fn line_variants_end_with_newline() {
    let mut logger = Logger::new(3);
    logger.elogln("one");
    logger.elog("two");
    let out = logger.output();
    let lines: Vec<&str> = out.split('\n').collect();
    assert_eq!(lines.len(), 2);
    assert!(lines[0].starts_with("[ERROR] ") && lines[0].ends_with(": one"));
    assert!(lines[1].starts_with("[ERROR] ") && lines[1].ends_with(": two"));
}
