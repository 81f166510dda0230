use nightkrawler::size::{multiplier_of, parse_size_argument};
use nightkrawler::size_text::human_size;
use nightkrawler::text::{colored, decimal_string};

fn float_human_size(bytes: u64) -> String {
    let units = ["B", "K", "M", "G", "T"];
    let mut size = bytes as f64;
    let mut unit_index = 0usize;
    while size >= 1024.0 && unit_index < units.len() - 1 {
        size /= 1024.0;
        unit_index += 1;
    }
    if unit_index == 0 {
        format!("{}{}", bytes, units[unit_index])
    } else {
        format!("{:.1}{}", size, units[unit_index])
    }
}

#[test]
fn human_size_small_values_are_exact_bytes() {
    assert_eq!(human_size(0), "0B");
    assert_eq!(human_size(1), "1B");
    assert_eq!(human_size(1023), "1023B");
}

#[test]
fn human_size_uses_one_decimal_in_larger_units() {
    assert_eq!(human_size(1024), "1.0K");
    assert_eq!(human_size(1536), "1.5K");
    assert_eq!(human_size(100 * 1024 * 1024), "100.0M");
    assert_eq!(human_size(1024 * 1024 * 1024), "1.0G");
    assert_eq!(human_size(5 * 1024_u64.pow(4)), "5.0T");
    assert_eq!(human_size(3 * 1024_u64.pow(5)), "3072.0T");
}

#[test]
fn human_size_matches_float_formatting() {
    let mut samples: Vec<u64> = vec![
        1024, 1025, 1075, 1076, 1126, 10239, 10240, 1048575, 1048576, 1572864, 123456789,
        u64::MAX, u64::MAX - 1, 1 << 53, (1 << 53) + 1, 1 << 63, 999_999_999_999,
    ];
    for k in 1..=5u32 {
        for d in 0..200u64 {
            let base = 1024_u64.pow(k);
            samples.push(base.saturating_mul(d) + d * 51);
            samples.push(base / 20 * (2 * d + 1));
        }
    }
    let mut x: u64 = 0x9E3779B97F4A7C15;
    for _ in 0..20000 {
        x ^= x << 13;
        x ^= x >> 7;
        x ^= x << 17;
        samples.push(x >> (x % 60));
        samples.push(x);
    }
    for s in samples {
        assert_eq!(human_size(s), float_human_size(s), "size {}", s);
    }
}

#[test]
fn size_arguments_with_units() {
    assert_eq!(parse_size_argument("100"), Some(100));
    assert_eq!(parse_size_argument("100b"), Some(100));
    assert_eq!(parse_size_argument("10K"), Some(10 * 1024));
    assert_eq!(parse_size_argument("10kb"), Some(10 * 1024));
    assert_eq!(parse_size_argument("10KiB"), Some(10 * 1024));
    assert_eq!(parse_size_argument("100M"), Some(100 * 1024 * 1024));
    assert_eq!(parse_size_argument("100MB"), Some(100 * 1024 * 1024));
    assert_eq!(parse_size_argument("2G"), Some(2 * 1024 * 1024 * 1024));
    assert_eq!(parse_size_argument("3TiB"), Some(3 * 1024_u64.pow(4)));
    assert_eq!(parse_size_argument("  7m \t"), Some(7 * 1024 * 1024));
}

#[test]
fn size_arguments_that_are_refused() {
    assert_eq!(parse_size_argument(""), None);
    assert_eq!(parse_size_argument("   "), None);
    assert_eq!(parse_size_argument("M"), None);
    assert_eq!(parse_size_argument("10X"), None);
    assert_eq!(parse_size_argument("1M0"), None);
    assert_eq!(parse_size_argument("-5"), None);
    assert_eq!(parse_size_argument("1.5M"), None);
    assert_eq!(parse_size_argument("18446744073709551616"), None);
    assert_eq!(parse_size_argument("17179869184T"), None);
}

#[test]
fn size_units_are_lowercased_in_full() {
    assert_eq!(parse_size_argument("5GB"), Some(5 * 1024 * 1024 * 1024));
    assert_eq!(parse_size_argument("5Gib"), Some(5 * 1024 * 1024 * 1024));
}

#[test]
fn colored_wraps_only_when_colours_are_on() {
    assert_eq!(colored("text", "\x1b[92m", true), "\x1b[92mtext\x1b[0m");
    assert_eq!(colored("text", "\x1b[92m", false), "text");
    assert_eq!(colored("", "\x1b[1;31m", true), "\x1b[1;31m\x1b[0m");
}

#[test]
fn decimals() {
    assert_eq!(decimal_string(0), "0");
    assert_eq!(decimal_string(42), "42");
    assert_eq!(decimal_string(u64::MAX), "18446744073709551615");
}

#[test]
fn unit_multipliers() {
    assert_eq!(multiplier_of(""), Some(1));
    assert_eq!(multiplier_of("b"), Some(1));
    assert_eq!(multiplier_of("kib"), Some(1024));
    assert_eq!(multiplier_of("mb"), Some(1024 * 1024));
    assert_eq!(multiplier_of("g"), Some(1024 * 1024 * 1024));
    assert_eq!(multiplier_of("tb"), Some(1024u64.pow(4)));
    assert_eq!(multiplier_of("KB"), None);
    assert_eq!(multiplier_of("pb"), None);
    assert_eq!(parse_size_argument(" 3MiB "), Some(3 * 1024 * 1024));
    assert_eq!(parse_size_argument("3 MiB"), None);
}
