use sysmetrics::access_log::{format_access_log, log_apache};
use sysmetrics::config::{resolve_port, DEFAULT_PORT};
use sysmetrics::cpu::counter_failure_message;
use sysmetrics::text::u64_to_string;

#[test]
fn port_absent_falls_back_to_default() {
    assert_eq!(DEFAULT_PORT, 59232);
    assert_eq!(resolve_port(None), 59232);
}

#[test]
fn port_non_numeric_falls_back_to_default() {
    assert_eq!(resolve_port(Some("abc".to_string())), 59232);
    assert_eq!(resolve_port(Some("".to_string())), 59232);
    assert_eq!(resolve_port(Some(" 80".to_string())), 59232);
    assert_eq!(resolve_port(Some("80 ".to_string())), 59232);
    assert_eq!(resolve_port(Some("8_080".to_string())), 59232);
    assert_eq!(resolve_port(Some("-1".to_string())), 59232);
    assert_eq!(resolve_port(Some("+".to_string())), 59232);
    assert_eq!(resolve_port(Some("12.5".to_string())), 59232);
}

#[test]
fn port_numeric_values_parse() {
    assert_eq!(resolve_port(Some("0".to_string())), 0);
    assert_eq!(resolve_port(Some("8080".to_string())), 8080);
    assert_eq!(resolve_port(Some("+443".to_string())), 443);
    assert_eq!(resolve_port(Some("070".to_string())), 70);
    assert_eq!(resolve_port(Some("65535".to_string())), 65535);
}

#[test]
fn port_out_of_range_falls_back_to_default() {
    assert_eq!(resolve_port(Some("65536".to_string())), 59232);
    assert_eq!(resolve_port(Some("99999999999999999999".to_string())), 59232);
}

#[test]
fn port_parse_agrees_with_std() {
    for raw in [
        "0", "1", "80", "+80", "++80", "59232", "65535", "65536", "0x50", "8e3", "-80", " 9",
        "9 ", "", "+", "007",
    ] {
        let expected = raw.parse::<u16>().unwrap_or(59232);
        assert_eq!(resolve_port(Some(raw.to_string())), expected, "input {raw:?}");
    }
}

#[test]
fn decimal_rendering_is_exact() {
    assert_eq!(u64_to_string(0), "0");
    assert_eq!(u64_to_string(7), "7");
    assert_eq!(u64_to_string(59232), "59232");
    assert_eq!(u64_to_string(u64::MAX), "18446744073709551615");
}

#[test]
fn access_log_line_has_fixed_format() {
    let line = format_access_log(
        "203.0.113.9",
        "11/Oct/2026:12:00:00 +0000",
        "GET",
        "/api/v1/metrics",
        200,
        371,
    );
    assert_eq!(
        line,
        "203.0.113.9 - - [11/Oct/2026:12:00:00 +0000] \"GET /api/v1/metrics HTTP/1.1\" 200 371ms"
    );
}

#[test]
fn access_log_stamps_current_time_between_fixed_parts() {
    let line = log_apache(Some("198.51.100.7".to_string()), "POST", "/nowhere", 200, 12);
    assert!(line.starts_with("198.51.100.7 - - ["));
    assert!(line.ends_with("] \"POST /nowhere HTTP/1.1\" 200 12ms"));
    // The timestamp between the brackets comes from the clock: it must be
    // non-empty and of the fixed dd/Mon/yyyy:HH:MM:SS +zzzz shape.
    let start = line.find('[').unwrap() + 1;
    let end = line.find(']').unwrap();
    let ts = &line[start..end];
    assert_eq!(ts.len(), 26);
    assert_eq!(&ts[2..3], "/");
    assert_eq!(&ts[6..7], "/");
    assert_eq!(&ts[11..12], ":");
}

#[test]
fn missing_forwarded_for_logs_a_dash() {
    let line = log_apache(None, "GET", "/", 200, 0);
    assert!(line.starts_with("- - - ["));
}

#[test]
fn counter_failure_message_names_step_and_status() {
    assert_eq!(
        counter_failure_message("PdhOpenQueryW", 3221228473),
        "PdhOpenQueryW failed: 3221228473"
    );
    assert_eq!(counter_failure_message("PdhAddCounterW", 0), "PdhAddCounterW failed: 0");
}
