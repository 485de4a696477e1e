//! Tests of human-readable size and duration formatting.

use mik::utils::{format_bytes, format_duration, format_duration_secs};

#[test]
fn test_format_duration() {
    assert_eq!(format_duration(chrono::Duration::seconds(30)), "30s");
    assert_eq!(format_duration(chrono::Duration::seconds(90)), "1m 30s");
    assert_eq!(format_duration(chrono::Duration::seconds(3660)), "1h 1m");
    assert_eq!(format_duration(chrono::Duration::seconds(90000)), "1d 1h");
}

#[test]
fn test_format_bytes() {
    assert_eq!(format_bytes(0), "0 bytes");
    assert_eq!(format_bytes(512), "512 bytes");
    assert_eq!(format_bytes(1024), "1.0 KB");
    assert_eq!(format_bytes(1536), "1.5 KB");
    assert_eq!(format_bytes(1024 * 1024), "1.0 MB");
    assert_eq!(format_bytes(1024 * 1024 * 1024), "1.00 GB");
    assert_eq!(format_bytes(1024 * 1024 * 1024 * 1024), "1.00 TB");
}

fn float_format(bytes: u64) -> String {
    const KB: u64 = 1024;
    const MB: u64 = 1024 * 1024;
    const GB: u64 = 1024 * 1024 * 1024;
    const TB: u64 = 1024 * 1024 * 1024 * 1024;
    if bytes == 0 {
        "0 bytes".to_string()
    } else if bytes >= TB {
        format!("{:.2} TB", bytes as f64 / TB as f64)
    } else if bytes >= GB {
        format!("{:.2} GB", bytes as f64 / GB as f64)
    } else if bytes >= MB {
        format!("{:.1} MB", bytes as f64 / MB as f64)
    } else if bytes >= KB {
        format!("{:.1} KB", bytes as f64 / KB as f64)
    } else {
        format!("{bytes} bytes")
    }
}

#[test]
fn format_bytes_matches_float_formatting() {
    let mut values: Vec<u64> = vec![
        1, 1023, 1024, 1075, 1076, 1126, 1127, 1280, 1331, 1536, 1792, 10239, 10240,
        1024 * 1024 - 1, 1024 * 1024 + 52428, 1024 * 1024 + 52429, 1310720, 1572864,
        5 * 1024 * 1024 * 1024 / 4, 1024 * 1024 * 1024 + 5368709, 1024 * 1024 * 1024 + 5368710,
        u64::MAX, u64::MAX - 1, 1 << 53, (1 << 53) + 1, (1 << 63) + (1 << 37), (1 << 62) + 3 * (1 << 37),
        (1 << 62) + 3 * (1 << 37) + 1, (1 << 62) + 3 * (1 << 37) - 1, 9 << 40, (1 << 40) + (1 << 37),
    ];
    let mut x: u64 = 0x9E37_79B9_7F4A_7C15;
    for _ in 0..20000 {
        x ^= x << 13;
        x ^= x >> 7;
        x ^= x << 17;
        values.push(x >> (x % 64));
    }
    for v in values {
        assert_eq!(format_bytes(v), float_format(v), "value {v}");
    }
}

#[test]
fn durations_by_magnitude() {
    assert_eq!(format_duration_secs(0), "0s");
    assert_eq!(format_duration_secs(-5), "-5s");
    assert_eq!(format_duration_secs(i64::MIN), format!("{}s", i64::MIN));
    assert_eq!(format_duration_secs(59), "59s");
    assert_eq!(format_duration_secs(60), "1m 0s");
    assert_eq!(format_duration_secs(3599), "59m 59s");
    assert_eq!(format_duration_secs(86399), "23h 59m");
    assert_eq!(format_duration_secs(86400), "1d 0h");
}
