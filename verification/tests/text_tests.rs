use actlog::cli::CloudProvider;
use actlog::text::{decimal_string, digit_str};
use actlog::units::{Money, Percent};

#[test]
fn digits_are_written_as_characters() {
    let all: Vec<&str> = (0..10).map(digit_str).collect();
    assert_eq!(all, vec!["0", "1", "2", "3", "4", "5", "6", "7", "8", "9"]);
}

#[test]
fn decimal_numerals() {
    assert_eq!(decimal_string(0), "0");
    assert_eq!(decimal_string(7), "7");
    assert_eq!(decimal_string(10), "10");
    assert_eq!(decimal_string(45), "45");
    assert_eq!(decimal_string(1_000_000), "1000000");
    assert_eq!(decimal_string(u64::MAX), "18446744073709551615");
}

#[test]
fn percent_is_written_with_one_decimal() {
    assert_eq!(Percent::from_tenths(50).to_text(), "5.0");
    assert_eq!(Percent::from_tenths(0).to_text(), "0.0");
    assert_eq!(Percent::from_tenths(7).to_text(), "0.7");
    assert_eq!(Percent::from_tenths(905).to_text(), "90.5");
    assert_eq!(Percent::from_tenths(1000).to_text(), "100.0");
    assert_eq!(Percent::from_tenths(u32::MAX).to_text(), "429496729.5");
}

#[test]
fn percent_from_whole_numbers() {
    assert_eq!(Percent::from_whole(70), Some(Percent::from_tenths(700)));
    assert_eq!(Percent::from_whole(0), Some(Percent::from_tenths(0)));
    assert_eq!(Percent::from_whole(429_496_729), Some(Percent::from_tenths(4_294_967_290)));
    assert_eq!(Percent::from_whole(429_496_730), None);
}

#[test]
fn percent_comparisons_are_exact() {
    let seventy = Percent::from_tenths(700);
    assert!(Percent::from_tenths(701).exceeds(seventy));
    assert!(!Percent::from_tenths(700).exceeds(seventy));
    assert!(Percent::from_tenths(349).below_half_of(seventy));
    assert!(!Percent::from_tenths(350).below_half_of(seventy));
    let odd = Percent::from_tenths(701);
    assert!(Percent::from_tenths(350).below_half_of(odd));
    assert!(!Percent::from_tenths(351).below_half_of(odd));
    assert!(!Percent::from_tenths(u32::MAX).below_half_of(Percent::from_tenths(u32::MAX)));
    assert!(Percent::from_tenths(1000).is_within_scale());
    assert!(!Percent::from_tenths(1001).is_within_scale());
}

#[test]
fn money_is_written_with_two_decimals() {
    assert_eq!(Money::from_cents(2500).to_text(), "25.00");
    assert_eq!(Money::from_cents(5).to_text(), "0.05");
    assert_eq!(Money::from_cents(15025).to_text(), "150.25");
    assert_eq!(Money::from_cents(0).to_text(), "0.00");
    assert_eq!(Money::from_cents(u64::MAX).to_text(), "184467440737095516.15");
}

#[test]
fn provider_names() {
    assert_eq!(CloudProvider::Aws.to_text(), "AWS");
    assert_eq!(CloudProvider::Gcp.to_text(), "GCP");
    assert_eq!(CloudProvider::Azure.to_text(), "Azure");
}
