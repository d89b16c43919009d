use syshealth::numfmt::{dec_u128, dec_u64, fixed1_i64, fixed1_u128, fixed2_u128};
use syshealth::units::{bytes_to_centi_gb, mwh_to_centi_wh, percent_deci};
use syshealth::uptime::{uptime_line, uptime_parts};

#[test]
fn dec_renders_zero() {
    assert_eq!(dec_u64(0), "0");
}

#[test]
fn dec_renders_single_digit() {
    assert_eq!(dec_u64(7), "7");
}

#[test]
fn dec_renders_multi_digit() {
    assert_eq!(dec_u64(907), "907");
    assert_eq!(dec_u64(u64::MAX), "18446744073709551615");
}

#[test]
fn dec_renders_u128_values() {
    assert_eq!(dec_u128(123456789012345678901234567890), "123456789012345678901234567890");
}

#[test]
fn fixed1_renders_tenths() {
    assert_eq!(fixed1_u128(553), "55.3");
    assert_eq!(fixed1_u128(0), "0.0");
    assert_eq!(fixed1_u128(9), "0.9");
    assert_eq!(fixed1_u128(1000), "100.0");
}

#[test]
fn fixed2_renders_hundredths() {
    assert_eq!(fixed2_u128(4500), "45.00");
    assert_eq!(fixed2_u128(4), "0.04");
    assert_eq!(fixed2_u128(40), "0.40");
    assert_eq!(fixed2_u128(104), "1.04");
}

#[test]
fn fixed1_signed_renders_sign() {
    assert_eq!(fixed1_i64(553), "55.3");
    assert_eq!(fixed1_i64(-53), "-5.3");
    assert_eq!(fixed1_i64(-5), "-0.5");
    assert_eq!(fixed1_i64(0), "0.0");
}

#[test]
fn centi_gb_conversion_is_exact_on_whole_gib() {
    assert_eq!(bytes_to_centi_gb(8 * 1024 * 1024 * 1024), 800);
    assert_eq!(bytes_to_centi_gb(1_610_612_736), 150); // 1.5 GiB
    assert_eq!(bytes_to_centi_gb(0), 0);
}

#[test]
fn centi_wh_conversion_truncates() {
    assert_eq!(mwh_to_centi_wh(45_000), 4_500);
    assert_eq!(mwh_to_centi_wh(45_009), 4_500);
}

#[test]
fn percent_deci_truncates() {
    assert_eq!(percent_deci(1, 3), 333);
    assert_eq!(percent_deci(3, 4), 750);
    assert_eq!(percent_deci(0, 5), 0);
    assert_eq!(percent_deci(5, 5), 1000);
}

#[test]
fn percent_split_sums_near_hundred() {
    // used share plus free share of the same whole: within one tenth
    // of a percent below the full hundred, never above it
    let whole: u64 = 3;
    let avail: u64 = 1;
    let sum = percent_deci(whole - avail, whole) + percent_deci(avail, whole);
    assert!(999 <= sum && sum <= 1000);

    let whole: u64 = 7;
    for avail in 0..=whole {
        let sum = percent_deci(whole - avail, whole) + percent_deci(avail, whole);
        assert!(999 <= sum && sum <= 1000);
    }
}

#[test]
fn uptime_decomposes_3661_seconds() {
    assert_eq!(uptime_parts(3661), (1, 1));
    assert_eq!(uptime_line(3661), "⏳ Uptime: 1h 1m");
}

#[test]
fn uptime_decomposes_edges() {
    assert_eq!(uptime_parts(0), (0, 0));
    assert_eq!(uptime_parts(3599), (0, 59));
    assert_eq!(uptime_parts(3600), (1, 0));
    assert_eq!(uptime_parts(86_400 + 60), (24, 1));
}
