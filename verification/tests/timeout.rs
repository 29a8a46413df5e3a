use tls_boringssl::timeout::{DEFAULT_HANDSHAKE_SECS, NANOS_PER_SEC};
use tls_boringssl::HandshakeTimeout;

#[test]
fn default_timeout_is_ten_seconds() {
    let timeout = HandshakeTimeout::default();
    assert_eq!(timeout.as_secs(), 10);
    assert_eq!(timeout.subsec_nanos(), 0);
    assert_eq!(timeout.as_nanos(), 10_000_000_000);
    assert_eq!(DEFAULT_HANDSHAKE_SECS, 10);
    assert_eq!(NANOS_PER_SEC, 1_000_000_000);
}

#[test]
fn timeout_of_zero_is_refused() {
    assert_eq!(HandshakeTimeout::new(0, 0), None);
}

#[test]
fn timeout_with_a_full_second_of_nanos_is_refused() {
    assert_eq!(HandshakeTimeout::new(1, 1_000_000_000), None);
    assert_eq!(HandshakeTimeout::new(0, 1_000_000_000), None);
    assert_eq!(HandshakeTimeout::new(7, u32::MAX), None);
}

#[test]
fn smallest_and_largest_timeouts_are_taken() {
    let smallest = HandshakeTimeout::new(0, 1).unwrap();
    assert_eq!(smallest.as_secs(), 0);
    assert_eq!(smallest.subsec_nanos(), 1);
    assert_eq!(smallest.as_nanos(), 1);

    let largest = HandshakeTimeout::new(u64::MAX, 999_999_999).unwrap();
    assert_eq!(largest.as_secs(), u64::MAX);
    assert_eq!(largest.subsec_nanos(), 999_999_999);
    assert_eq!(largest.as_nanos(), 18_446_744_073_709_551_615_999_999_999);
}

#[test]
fn timeout_in_nanos_counts_seconds_and_the_rest() {
    let timeout = HandshakeTimeout::new(1, 500).unwrap();
    assert_eq!(timeout.as_nanos(), 1_000_000_500);
    assert_eq!(timeout.as_secs(), 1);
    assert_eq!(timeout.subsec_nanos(), 500);
    timeout.nonzero();
    assert!(timeout.as_nanos() > 0);
}

#[test]
fn equal_spans_are_equal_timeouts() {
    assert_eq!(HandshakeTimeout::new(10, 0), Some(HandshakeTimeout::default()));
    assert_ne!(HandshakeTimeout::new(10, 1), Some(HandshakeTimeout::default()));
}
