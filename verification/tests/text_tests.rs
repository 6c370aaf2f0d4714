use logfmt::Timestamp;
use logfmt::parse_thread_id;
use logfmt::render_timestamp;
use logfmt::u64_to_string;

#[test]
fn decimal_rendering() {
    assert_eq!(u64_to_string(0), "0");
    assert_eq!(u64_to_string(7), "7");
    assert_eq!(u64_to_string(42), "42");
    assert_eq!(u64_to_string(1000), "1000");
    assert_eq!(u64_to_string(1234567890123456789), "1234567890123456789");
    assert_eq!(u64_to_string(u64::MAX), "18446744073709551615");
}

#[test]
fn timestamp_is_zero_padded() {
    let ts = Timestamp { hour: 9, minute: 5, second: 1, microsecond: 123456 };
    assert_eq!(render_timestamp(&ts), "09:05:01.123456");
    let ts = Timestamp { hour: 0, minute: 0, second: 0, microsecond: 1 };
    assert_eq!(render_timestamp(&ts), "00:00:00.000001");
    let ts = Timestamp { hour: 23, minute: 59, second: 59, microsecond: 999999 };
    assert_eq!(render_timestamp(&ts), "23:59:59.999999");
}

#[test]
fn timestamp_out_of_range_uses_placeholder() {
    let ts = Timestamp { hour: 24, minute: 0, second: 0, microsecond: 0 };
    assert_eq!(render_timestamp(&ts), "??:??:??.??????");
    let ts = Timestamp { hour: 0, minute: 60, second: 0, microsecond: 0 };
    assert_eq!(render_timestamp(&ts), "??:??:??.??????");
    let ts = Timestamp { hour: 0, minute: 0, second: 0, microsecond: 1000000 };
    assert_eq!(render_timestamp(&ts), "??:??:??.??????");
}

#[test]
fn thread_id_parses_well_formed_text() {
    assert_eq!(parse_thread_id("ThreadId(42)"), Some(42));
    assert_eq!(parse_thread_id("ThreadId(0)"), Some(0));
    assert_eq!(parse_thread_id("ThreadId(042)"), Some(42));
    assert_eq!(parse_thread_id("ThreadId(18446744073709551615)"), Some(u64::MAX));
}

#[test]
fn thread_id_rejects_malformed_text() {
    assert_eq!(parse_thread_id(""), None);
    assert_eq!(parse_thread_id("ThreadId()"), None);
    assert_eq!(parse_thread_id("Thread(42)"), None);
    assert_eq!(parse_thread_id("ThreadId(42"), None);
    assert_eq!(parse_thread_id("ThreadId(42x)"), None);
    assert_eq!(parse_thread_id("ThreadId(4 2)"), None);
    assert_eq!(parse_thread_id("threadid(42)"), None);
}

#[test]
fn thread_id_rejects_overflow() {
    assert_eq!(parse_thread_id("ThreadId(18446744073709551616)"), None);
    assert_eq!(parse_thread_id("ThreadId(99999999999999999999999)"), None);
}
