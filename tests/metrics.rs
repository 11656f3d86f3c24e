use host_monitor::{memory_report, percent_of, Percent, BYTES_PER_GB};

fn as_float(p: Percent) -> f64 {
    p.numerator as f64 / p.denominator as f64
}

fn gigabytes(bytes: u64) -> f64 {
    bytes as f64 / BYTES_PER_GB as f64
}

fn within_tolerance(a: f64, b: f64) -> bool {
    (a - b).abs() <= 1e-9 * a.abs().max(1.0)
}

#[test]
fn memory_report_half_used() {
    let r = memory_report(BYTES_PER_GB, BYTES_PER_GB / 2);
    assert_eq!(r.total_bytes, BYTES_PER_GB);
    assert_eq!(r.used_bytes, BYTES_PER_GB / 2);
    assert_eq!(gigabytes(r.total_bytes), 1.0);
    assert_eq!(gigabytes(r.used_bytes), 0.5);
    assert_eq!(r.memory_usage, Percent { numerator: 100 * (BYTES_PER_GB as i128 / 2), denominator: BYTES_PER_GB });
    assert_eq!(as_float(r.memory_usage), 50.0);
}

#[test]
fn memory_usage_is_ratio_within_float_tolerance() {
    let r = memory_report(3, 1);
    assert_eq!(r.memory_usage, Percent { numerator: 100, denominator: 3 });
    assert!(within_tolerance(as_float(r.memory_usage), 1.0f64 / 3.0 * 100.0));
}

#[test]
fn memory_usage_matches_reported_sizes() {
    let r = memory_report(8 * BYTES_PER_GB, 1024);
    let total = gigabytes(r.total_bytes);
    let used = gigabytes(r.used_bytes);
    assert_eq!(total, 8.0);
    assert_eq!(used, 1024.0 / 1024.0 / 1024.0 / 1024.0);
    let usage = as_float(r.memory_usage);
    assert!(within_tolerance(usage, used / total * 100.0));
    assert!(within_tolerance(usage, 1024.0 / (8.0 * 1073741824.0) * 100.0));
}

#[test]
fn memory_sizes_are_raw_bytes_over_gigabyte() {
    let r = memory_report(1, 1);
    assert_eq!(gigabytes(r.total_bytes), 1.0 / 1024.0 / 1024.0 / 1024.0);
    let r = memory_report(3579139413, 0);
    assert_eq!(gigabytes(r.total_bytes), 3579139413.0 / 1024.0 / 1024.0 / 1024.0);
}

#[test]
fn memory_usage_zero_total_is_zero() {
    let r = memory_report(0, 12345);
    assert_eq!(r.memory_usage, Percent { numerator: 0, denominator: 1 });
    assert_eq!(as_float(r.memory_usage), 0.0);
    assert!(as_float(r.memory_usage).is_finite());
}

#[test]
fn memory_usage_above_total_passes_through() {
    let r = memory_report(100, 250);
    assert_eq!(as_float(r.memory_usage), 250.0);
    let r = memory_report(1_000_000, 1_000_001);
    assert!(as_float(r.memory_usage) > 100.0);
    let r = memory_report(1 << 40, (1 << 40) + 1);
    assert!(r.memory_usage.numerator > 100 * r.memory_usage.denominator as i128);
    assert!(as_float(r.memory_usage) > 100.0);
}

#[test]
fn percent_of_negative_part_and_extremes() {
    assert_eq!(percent_of(-1, 3), Percent { numerator: -100, denominator: 3 });
    assert_eq!(percent_of(-5, 0), Percent { numerator: 0, denominator: 1 });
    assert_eq!(percent_of(u64::MAX as i128, 1), Percent { numerator: u64::MAX as i128 * 100, denominator: 1 });
    assert_eq!(percent_of(-(u64::MAX as i128), u64::MAX).numerator, -(u64::MAX as i128) * 100);
}
