use restix::formatting::{format_bytes, format_json, format_ttl, get_type_badge, try_format_as_json};
use restix::models::TtlStatus;

fn reference_bytes(bytes: u64) -> String {
    const KB: u64 = 1024;
    const MB: u64 = KB * 1024;
    const GB: u64 = MB * 1024;
    if bytes >= GB {
        format!("{:.2} GB", bytes as f64 / GB as f64)
    } else if bytes >= MB {
        format!("{:.2} MB", bytes as f64 / MB as f64)
    } else if bytes >= KB {
        format!("{:.2} KB", bytes as f64 / KB as f64)
    } else {
        format!("{} B", bytes)
    }
}

#[test]
fn ttl_texts() {
    assert_eq!(format_ttl(-1), "No expiration");
    assert_eq!(format_ttl(-2), "Expired");
    assert_eq!(format_ttl(0), "0s");
    assert_eq!(format_ttl(59), "59s");
    assert_eq!(format_ttl(60), "1m 0s");
    assert_eq!(format_ttl(61), "1m 1s");
    assert_eq!(format_ttl(3599), "59m 59s");
    assert_eq!(format_ttl(3600), "1h 0m");
    assert_eq!(format_ttl(3661), "1h 1m");
    assert_eq!(format_ttl(86400), "24h 0m");
    assert_eq!(format_ttl(i64::MAX), format!("{}h {}m", i64::MAX / 3600, (i64::MAX % 3600) / 60));
}

#[test]
fn ttl_status_classes() {
    assert_eq!(TtlStatus::from_ttl(-1), TtlStatus::NoExpiration);
    assert_eq!(TtlStatus::from_ttl(-2), TtlStatus::Urgent(-2));
    assert_eq!(TtlStatus::from_ttl(59), TtlStatus::Urgent(59));
    assert_eq!(TtlStatus::from_ttl(60), TtlStatus::Warning(60));
    assert_eq!(TtlStatus::from_ttl(3599), TtlStatus::Warning(3599));
    assert_eq!(TtlStatus::from_ttl(3600), TtlStatus::Normal(3600));
}

#[test]
fn type_badges() {
    assert_eq!(get_type_badge("string"), "S");
    assert_eq!(get_type_badge("STRING"), "S");
    assert_eq!(get_type_badge("List"), "L");
    assert_eq!(get_type_badge("hash"), "H");
    assert_eq!(get_type_badge("set"), "U");
    assert_eq!(get_type_badge("zset"), "Z");
    assert_eq!(get_type_badge("ZSet"), "Z");
    assert_eq!(get_type_badge("stream"), "?");
    assert_eq!(get_type_badge(""), "?");
    assert_eq!(get_type_badge("sets"), "?");
}

#[test]
fn byte_sizes_exact() {
    assert_eq!(format_bytes(0), "0 B");
    assert_eq!(format_bytes(1023), "1023 B");
    assert_eq!(format_bytes(1024), "1.00 KB");
    assert_eq!(format_bytes(1536), "1.50 KB");
    assert_eq!(format_bytes(1048576), "1.00 MB");
    assert_eq!(format_bytes(1073741824), "1.00 GB");
    assert_eq!(format_bytes(5 * 1073741824), "5.00 GB");
}

#[test]
fn byte_sizes_match_float_formatting() {
    let mut samples: Vec<u64> = vec![
        1024, 1025, 1152, 1153, 1151, 2047, 2048, 1048575, 1048576, 1048577,
        1073741823, 1073741824, 1073741825, u64::MAX, u64::MAX - 1, 1 << 53, (1 << 53) + 1,
        (1 << 54) + 2, (1 << 54) + 3, (1 << 60) + 12345, 123456789012345678,
    ];
    let mut x: u64 = 0x9E37_79B9_7F4A_7C15;
    for _ in 0..20000 {
        x ^= x << 13;
        x ^= x >> 7;
        x ^= x << 17;
        samples.push(x);
        samples.push(x >> 20);
        samples.push(x >> 40);
        samples.push(x >> 50);
    }
    for k in 1..2000u64 {
        samples.push(1024 + k);
        samples.push(1048576 + k * 5243);
        samples.push(1073741824 + k * 5368709);
    }
    for b in samples {
        assert_eq!(format_bytes(b), reference_bytes(b), "bytes = {}", b);
    }
}

#[test]
fn json_reformatting() {
    assert_eq!(format_json("{\"a\":1}"), "{\n  \"a\": 1\n}");
    assert_eq!(format_json("[1,2]"), "[\n  1,\n  2\n]");
    assert_eq!(format_json("not json"), "not json");
    assert_eq!(try_format_as_json("{\"a\":1}"), "{\n  \"a\": 1\n}");
    assert_eq!(try_format_as_json("  [true] "), "[\n  true\n]");
    assert_eq!(try_format_as_json("{bad}"), "{bad}");
    assert_eq!(try_format_as_json("42"), "42");
    assert_eq!(try_format_as_json("plain"), "plain");
    assert_eq!(try_format_as_json(""), "");
    assert_eq!(try_format_as_json("[]"), "[]");
}
