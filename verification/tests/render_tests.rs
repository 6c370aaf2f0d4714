use logfmt::Format;
use logfmt::Level;
use logfmt::Timestamp;

fn ts() -> Timestamp {
    Timestamp { hour: 9, minute: 5, second: 1, microsecond: 123456 }
}

#[test]
fn plain_record_without_thread_names() {
    let mut renderer = Format::new().renderer();
    assert!(!renderer.use_color);
    assert!(!renderer.thread_names);
    let line = renderer.render_record(Level::Info, "app", "ready", &ts(), None, 3);
    assert_eq!(line, "09:05:01.123456 [INFO] app: ready");
}

#[test]
fn plain_record_with_named_thread() {
    let mut renderer = Format::new().log_thread_names().renderer();
    let line = renderer.render_record(Level::Error, "db", "conn lost", &ts(), Some("worker-3"), 3);
    assert_eq!(line, "09:05:01.123456 (worker-3) [ERROR] db: conn lost");
}

#[test]
fn unnamed_thread_shows_numeric_identity() {
    let mut renderer = Format::new().log_thread_names().renderer();
    let line = renderer.render_record(Level::Warn, "net", "slow", &ts(), None, 42);
    assert_eq!(line, "09:05:01.123456 (42) [WARN] net: slow");
}

#[test]
fn no_color_line_has_label_and_no_escapes() {
    let mut renderer = Format::new().log_thread_names().renderer();
    for level in [Level::Error, Level::Warn, Level::Info, Level::Debug, Level::Trace] {
        let line = renderer.render_record(level, "t", "m", &ts(), Some("w"), 1);
        assert!(!line.contains('\u{1b}'));
        assert!(line.contains('['));
        assert!(line.contains(']'));
    }
    let line = renderer.render_record(Level::Trace, "t", "m", &ts(), None, 1);
    assert!(line.contains("[TRACE]"));
}

#[test]
fn disabled_thread_names_leave_no_trace_of_the_thread() {
    let mut renderer = Format::new().renderer();
    let a = renderer.render_record(Level::Info, "app", "go", &ts(), Some("worker-9"), 77);
    let b = renderer.render_record(Level::Info, "app", "go", &ts(), None, 12345);
    assert_eq!(a, b);
    assert!(!a.contains('('));
    assert!(!a.contains("worker-9"));
    assert!(!a.contains("77"));
}

#[test]
fn forced_colors_style_message_and_drop_label() {
    let mut renderer = Format::new().force_colors().renderer();
    assert!(renderer.use_color);
    let line = renderer.render_record(Level::Info, "app", "ready", &ts(), None, 3);
    assert_eq!(line, "09:05:01.123456 app: \u{1b}[1m\u{1b}[97mready\u{1b}[0m");
    assert!(!line.contains("[INFO]"));
    let line = renderer.render_record(Level::Trace, "app", "quiet", &ts(), None, 3);
    assert_eq!(line, "09:05:01.123456 app: \u{1b}[2mquiet\u{1b}[0m");
}

#[test]
fn unique_thread_coloring_styles_the_label() {
    let mut renderer = Format::new().force_colors().uniquely_color_threads().renderer();
    assert!(renderer.use_color);
    assert!(renderer.color_threads);
    assert!(renderer.thread_names);
    let line = renderer.render_record(Level::Debug, "app", "x", &ts(), Some("w"), 8);
    // first identity seen: style index 0, the plain bright white hue
    assert_eq!(
        line,
        "09:05:01.123456 \u{1b}[97m(w)\u{1b}[0m app: \u{1b}[37mx\u{1b}[0m"
    );
}

#[test]
fn twenty_nine_renders_assign_distinct_indices() {
    let mut renderer = Format::new().force_colors().uniquely_color_threads().renderer();
    for id in 0u64..29 {
        renderer.render_record(Level::Info, "app", "one", &ts(), None, id + 500);
    }
    assert_eq!(renderer.cache.len(), 29);
    let mut seen_indices = std::collections::HashSet::new();
    for id in 0u64..29 {
        let idx = renderer.cache.index_of(id + 500).unwrap();
        assert!(seen_indices.insert(idx));
    }
    // the thirtieth caller wraps around the 28 visual styles without error
    let line_main = renderer.render_record(Level::Info, "app", "one", &ts(), Some("main"), 9999);
    assert_eq!(renderer.cache.index_of(9999), Some(29));
    let second = renderer.render_record(Level::Info, "app", "one", &ts(), Some("second"), 501);
    // index 29 renders as index 1 does: the bright blue hue
    assert!(line_main.contains("\u{1b}[94m(main)\u{1b}[0m"));
    assert!(second.contains("\u{1b}[94m(second)\u{1b}[0m"));
}

#[test]
fn repeated_records_from_one_thread_render_alike() {
    let mut renderer = Format::new().force_colors().uniquely_color_threads().renderer();
    let first = renderer.render_record(Level::Info, "a", "m", &ts(), Some("w"), 4);
    renderer.render_record(Level::Info, "a", "m", &ts(), Some("other"), 5);
    let again = renderer.render_record(Level::Info, "a", "m", &ts(), Some("w"), 4);
    assert_eq!(first, again);
}

#[test]
fn try_render_answers_only_without_a_pending_assignment() {
    let renderer = Format::new().force_colors().uniquely_color_threads().renderer();
    assert_eq!(renderer.try_render(Level::Info, "a", "m", &ts(), Some("w"), 4), None);
    let mut renderer = renderer;
    let line = renderer.render_record(Level::Info, "a", "m", &ts(), Some("w"), 4);
    let read_path = renderer.try_render(Level::Info, "a", "m", &ts(), Some("w"), 4);
    assert_eq!(read_path, Some(line));
    // without thread coloring the read path always answers
    let plain = Format::new().renderer();
    assert!(plain.try_render(Level::Info, "a", "m", &ts(), None, 4).is_some());
}

#[test]
fn render_now_emits_a_well_formed_timestamp() {
    let mut renderer = Format::new().renderer();
    assert!(renderer.offset_seconds >= -93599 && renderer.offset_seconds <= 93599);
    if renderer.offset_fallback {
        assert_eq!(renderer.offset_seconds, 0);
    }
    let line = renderer.render_now(Level::Info, "app", "ready", None, 3);
    let bytes = line.as_bytes();
    // HH:MM:SS.ffffff, then the rest of the record
    assert!(line.len() > 16);
    assert_eq!(bytes[2], b':');
    assert_eq!(bytes[5], b':');
    assert_eq!(bytes[8], b'.');
    for pos in [0, 1, 3, 4, 6, 7, 9, 10, 11, 12, 13, 14] {
        assert!(bytes[pos].is_ascii_digit(), "not a live timestamp: {line}");
    }
    assert!(line.ends_with(" [INFO] app: ready"));
}

#[test]
fn builder_setters_override_and_compose() {
    let renderer = Format::new().color_if_supported(logfmt::Stream::Stdout).renderer();
    // whatever the probe said, forcing afterwards wins
    let forced = Format::new().color_if_supported(logfmt::Stream::Stdout).force_colors().renderer();
    assert!(forced.use_color);
    // a thread-name-only configuration never consults the cache
    let named = Format::new().log_thread_names().renderer();
    assert!(named.thread_names);
    assert!(!named.color_threads);
    let _ = renderer;
}
