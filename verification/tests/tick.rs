use aimu::tick::{dt_nanos, wrapped_delta};

/// A 24-bit counter wrapping between two readings still yields the small
/// positive elapsed-tick count, and the tick period turns it into the
/// expected elapsed time.
#[test]
fn wrap_across_24_bit_boundary() {
    let delta = wrapped_delta(0xFF_FFF0, 0x00_0010, 24);
    assert_eq!(delta, 0x20);
    assert_eq!(delta, 32);
    let dt = dt_nanos(delta, 39_000);
    assert_eq!(dt, 1_248_000);
}

#[test]
fn wrap_across_32_bit_boundary() {
    let delta = wrapped_delta(0xFFFF_FFF0, 0x0000_0010, 32);
    assert_eq!(delta, 0x20);
}

#[test]
fn forward_delta_without_wrap() {
    assert_eq!(wrapped_delta(100, 164, 24), 64);
    assert_eq!(wrapped_delta(100, 164, 32), 64);
}

#[test]
fn equal_ticks_give_zero_delta() {
    assert_eq!(wrapped_delta(12345, 12345, 24), 0);
    assert_eq!(dt_nanos(0, 39_000), 0);
}

/// The delta always stays inside [0, 2^width), whichever way the counter
/// moved.
#[test]
fn delta_stays_inside_counter_range() {
    let pairs = [(0u32, 1u32), (1, 0), (0xFF_FFFF, 0), (0, 0xFF_FFFF), (0x80_0000, 0x7F_FFFF)];
    for (t0, t1) in pairs {
        let d = wrapped_delta(t0, t1, 24);
        assert!(d < 1 << 24);
    }
}

#[test]
fn largest_tick_period_does_not_overflow() {
    let dt = dt_nanos(u32::MAX, u32::MAX);
    assert_eq!(dt, u32::MAX as u64 * u32::MAX as u64);
}
