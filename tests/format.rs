use my_device::format::{human_readable_size, percentage, percentage_tenths, severity, Severity};

#[test]
fn size_of_zero_bytes() {
    assert_eq!(human_readable_size(0), "0.00 B");
}

#[test]
fn size_of_one_and_a_half_kib() {
    assert_eq!(human_readable_size(1536), "1.50 KiB");
}

#[test]
fn size_of_one_gib() {
    assert_eq!(human_readable_size(1073741824), "1.00 GiB");
}

#[test]
fn size_just_below_a_bracket() {
    assert_eq!(human_readable_size(1023), "1023.00 B");
    assert_eq!(human_readable_size(1024 * 1024 - 1), "1023.99 KiB");
}

#[test]
fn size_brackets_up_to_pib() {
    assert_eq!(human_readable_size(1024 * 1024), "1.00 MiB");
    assert_eq!(human_readable_size(5 * 1024 * 1024 * 1024 * 1024 / 4), "1.25 TiB");
    assert_eq!(human_readable_size(1024 * 1024 * 1024 * 1024 * 1024), "1.00 PiB");
}

#[test]
fn size_of_largest_count() {
    assert_eq!(human_readable_size(u64::MAX), "16383.99 PiB");
}

#[test]
fn size_truncates_hundredths() {
    // 1.999... KiB is shown as 1.99, never rounded up
    assert_eq!(human_readable_size(2047), "1.99 KiB");
    assert_eq!(human_readable_size(1034), "1.00 KiB");
    assert_eq!(human_readable_size(1035), "1.01 KiB");
}

#[test]
fn percentage_of_one_third() {
    assert_eq!(percentage(1, 3), "33.3");
}

#[test]
fn percentage_with_zero_denominator() {
    assert_eq!(percentage(0, 0), "0.0");
    assert_eq!(percentage(5, 0), "0.0");
}

#[test]
fn percentage_above_whole() {
    assert_eq!(percentage(2, 1), "200.0");
    assert_eq!(percentage(1, 1), "100.0");
}

#[test]
fn percentage_clamps_when_too_wide() {
    assert_eq!(percentage_tenths(u64::MAX, 1), u64::MAX);
    assert_eq!(percentage(u64::MAX, 1), "1844674407370955161.5");
}

#[test]
fn percentage_in_wide_arithmetic() {
    // numerator * 1000 overflows u64 but the quotient fits
    assert_eq!(percentage_tenths(u64::MAX, u64::MAX), 1000);
}

#[test]
fn severity_bands() {
    assert_eq!(severity(901), Severity::Critical);
    assert_eq!(severity(900), Severity::Warning);
    assert_eq!(severity(701), Severity::Warning);
    assert_eq!(severity(700), Severity::Nominal);
    assert_eq!(severity(0), Severity::Nominal);
}
