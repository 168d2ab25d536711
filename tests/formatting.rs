use kpageflags::formatting::{
    format_memory_change_kb, format_memory_kb, format_number, format_signed_number,
};

#[test]
fn test_format_number() {
    assert_eq!(format_number(0), "0");
    assert_eq!(format_number(123), "123");
    assert_eq!(format_number(1234), "1,234");
    assert_eq!(format_number(1234567), "1,234,567");
    assert_eq!(format_number(1234567890), "1,234,567,890");
}

#[test]
fn test_format_signed_number() {
    assert_eq!(format_signed_number(0), "+0");
    assert_eq!(format_signed_number(1234), "+1,234");
    assert_eq!(format_signed_number(-1234), "-1,234");
    assert_eq!(format_signed_number(1234567), "+1,234,567");
    assert_eq!(format_signed_number(-1234567), "-1,234,567");
}

#[test]
fn test_format_memory_kb() {
    assert_eq!(format_memory_kb(512), "512 KB");
    assert_eq!(format_memory_kb(1536), "1,536 KB (1.5 MB)");
    assert_eq!(format_memory_kb(2048 * 1024), "2,097,152 KB (2.0 GB)");
}

#[test]
fn test_format_memory_change_kb() {
    assert_eq!(format_memory_change_kb(512), "+512 KB");
    assert_eq!(format_memory_change_kb(-512), "-512 KB");
    assert_eq!(format_memory_change_kb(1536), "+1,536 KB (+1.5 MB)");
    assert_eq!(format_memory_change_kb(-1536), "-1,536 KB (-1.5 MB)");
}

#[test]
fn format_number_extremes() {
    assert_eq!(format_number(999), "999");
    assert_eq!(format_number(1000), "1,000");
    assert_eq!(format_number(1_000_001), "1,000,001");
    assert_eq!(format_number(u64::MAX), "18,446,744,073,709,551,615");
    assert_eq!(format_signed_number(i64::MIN), "-9,223,372,036,854,775,808");
}

#[test]
fn memory_units_switch_at_each_power_of_1024() {
    assert_eq!(format_memory_kb(1023), "1,023 KB");
    assert_eq!(format_memory_kb(1024), "1,024 KB (1.0 MB)");
    assert_eq!(format_memory_kb(1024 * 1024 * 1024), "1,073,741,824 KB (1.0 TB)");
    assert_eq!(format_memory_change_kb(0), "+0 KB");
    assert_eq!(format_memory_change_kb(-3 * 1024 * 1024), "-3,145,728 KB (-3.0 GB)");
}

#[test]
fn memory_tenths_round_like_float_formatting() {
    for kb in [1280u64, 1075, 1100, 1126, 1177, 1331, 2304, 5_000_000, 3_758_096_384] {
        let (unit, name) = if kb >= 1024 * 1024 * 1024 {
            (1024.0 * 1024.0 * 1024.0, "TB")
        } else if kb >= 1024 * 1024 {
            (1024.0 * 1024.0, "GB")
        } else {
            (1024.0, "MB")
        };
        let expected = format!("{} KB ({:.1} {})", format_number(kb), kb as f64 / unit, name);
        assert_eq!(format_memory_kb(kb), expected);
    }
}
