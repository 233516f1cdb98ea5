//! Tests of rounding to the device's increment grid.

use xiapi::roi::round_down;

#[test]
fn round_down_exact_values() {
    assert_eq!(round_down(21, 4), 20);
    assert_eq!(round_down(20, 4), 20);
    assert_eq!(round_down(3, 4), 0);
    assert_eq!(round_down(0, 4), 0);
    assert_eq!(round_down(12345, 20), 12340);
    assert_eq!(round_down(7, 1), 7);
}

#[test]
fn round_down_is_idempotent() {
    for v in [0u32, 1, 5, 19, 20, 21, 1023, 1024] {
        let once = round_down(v, 16);
        assert_eq!(round_down(once, 16), once);
    }
}
