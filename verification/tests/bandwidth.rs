use yocalhost::args::{bandwidth_of, DEFAULT_BANDWIDTH, DEFAULT_LATENCY_MILLIS, DEFAULT_PORT};
use yocalhost::parse_bandwidth;

fn bandwidth(text: &str) -> u64 {
    parse_bandwidth(text).unwrap()
}

fn complaint(text: &str) -> String {
    parse_bandwidth(text).unwrap_err().cause.to_string()
}

#[test]
fn bits_and_bytes_are_told_apart() {
    assert_eq!(bandwidth("1 Mb"), 125_000);
    assert_eq!(bandwidth("1 Gb"), 125_000_000);
    assert_eq!(bandwidth("1 GB"), 1_000_000_000);
    assert_eq!(bandwidth("10MB"), 10_000_000);
}

#[test]
fn documented_bandwidths_are_read() {
    assert_eq!(bandwidth("100Mbit"), 100_000_000 / 8);
    assert_eq!(bandwidth("1.1Mb"), 137_500);
    assert_eq!(bandwidth("512kb"), 64_000);
    assert_eq!(bandwidth("500000"), 500_000);
}

#[test]
fn no_bandwidth_is_read_from_other_text() {
    assert_eq!(complaint(""), "no value can be found");
    assert_eq!(complaint("x"), "the character 'x' is not a number");
    assert!(complaint("1 Q").starts_with("the character 'Q' is incorrect"));
}

#[test]
fn a_number_of_bytes_is_a_bandwidth() {
    assert_eq!(bandwidth_of(Ok(64_000)).unwrap(), 64_000);
    let cause = "1 Q".parse::<byte_unit::Byte>().unwrap_err();
    let words = cause.to_string();
    assert_eq!(bandwidth_of(Err(cause)).unwrap_err().cause.to_string(), words);
}

#[test]
fn defaults() {
    assert_eq!(DEFAULT_PORT, 8001);
    assert_eq!(DEFAULT_LATENCY_MILLIS, 100);
    assert_eq!(DEFAULT_BANDWIDTH, 1_000_000);
}
