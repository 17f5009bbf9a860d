use walrus_comms::format::{thousands_separator, u64_to_decimal, HumanReadableBytes, HumanReadableMist};

#[test]
fn decimal_rendering() {
    assert_eq!(u64_to_decimal(0), "0");
    assert_eq!(u64_to_decimal(7), "7");
    assert_eq!(u64_to_decimal(105), "105");
    assert_eq!(u64_to_decimal(u64::MAX), "18446744073709551615");
}

#[test]
fn thousands_separator_groups_digits() {
    assert_eq!(thousands_separator(0), "0");
    assert_eq!(thousands_separator(999), "999");
    assert_eq!(thousands_separator(1_000), "1,000");
    assert_eq!(thousands_separator(2_000_000), "2,000,000");
    assert_eq!(thousands_separator(123_456_789), "123,456,789");
    assert_eq!(thousands_separator(18_446_744_073_709_551_615), "18,446,744,073,709,551,615");
}

#[test]
fn bytes_display_without_precision() {
    assert_eq!(HumanReadableBytes(0).display(), "0 B");
    assert_eq!(HumanReadableBytes(1).display(), "1 B");
    assert_eq!(HumanReadableBytes(1023).display(), "1023 B");
    assert_eq!(HumanReadableBytes(1024).display(), "1.00 KiB");
    assert_eq!(HumanReadableBytes(1024 * 99).display(), "99.0 KiB");
    assert_eq!(HumanReadableBytes(1024 * 100).display(), "100 KiB");
    assert_eq!(HumanReadableBytes(1024 * 1023).display(), "1023 KiB");
    assert_eq!(HumanReadableBytes(1024_u64.pow(6)).display(), "1.00 EiB");
    assert_eq!(HumanReadableBytes(u64::MAX).display(), "16.0 EiB");
}

#[test]
fn bytes_display_with_explicit_precision() {
    assert_eq!(HumanReadableBytes(0).display_with_precision(0), "0 B");
    assert_eq!(HumanReadableBytes(1).display_with_precision(0), "1 B");
    assert_eq!(HumanReadableBytes(1023).display_with_precision(0), "1023 B");
    assert_eq!(HumanReadableBytes(1024).display_with_precision(0), "1 KiB");
    assert_eq!(HumanReadableBytes(1024 * 99).display_with_precision(0), "99 KiB");
    assert_eq!(HumanReadableBytes(1024 * 100).display_with_precision(0), "100 KiB");
    assert_eq!(HumanReadableBytes(1024 * 1023).display_with_precision(0), "1023 KiB");
    assert_eq!(HumanReadableBytes(1024_u64.pow(6)).display_with_precision(0), "1 EiB");
    assert_eq!(HumanReadableBytes(u64::MAX).display_with_precision(0), "16 EiB");
    assert_eq!(HumanReadableBytes(1).display_with_precision(1), "1 B");
    assert_eq!(HumanReadableBytes(1023).display_with_precision(1), "1023 B");
    assert_eq!(HumanReadableBytes(1024).display_with_precision(1), "1 KiB");
    assert_eq!(HumanReadableBytes(1).display_with_precision(5), "1 B");
    assert_eq!(HumanReadableBytes(1023).display_with_precision(5), "1023 B");
    assert_eq!(HumanReadableBytes(1024).display_with_precision(5), "1.0000 KiB");
    assert_eq!(HumanReadableBytes(1025).display_with_precision(5), "1.0010 KiB");
}

#[test]
fn mist_display() {
    assert_eq!(HumanReadableMist(10).display(), "10 MIST");
    assert_eq!(HumanReadableMist(10_000).display(), "10,000 MIST");
    assert_eq!(HumanReadableMist(1_000_000).display(), "0.0010 SUI");
    assert_eq!(HumanReadableMist(9_123_456).display(), "0.0091 SUI");
    assert_eq!(HumanReadableMist(10_123_456).display(), "0.010 SUI");
    assert_eq!(HumanReadableMist(1_500_000_000).display(), "1.500 SUI");
}
