use core::time::Duration;
use esp_i2c_hal::{APBTickType, APB_TICK_PERIOD_NS};

#[test]
fn tick_period_is_the_truncated_apb_period() {
    assert_eq!(APB_TICK_PERIOD_NS, 12);
}

#[test]
fn zero_duration_is_zero_ticks() {
    assert_eq!(APBTickType::from(Duration::from_nanos(0)).ticks(), 0);
}

#[test]
fn one_nanosecond_rounds_up_to_one_tick() {
    assert_eq!(APBTickType::from(Duration::from_nanos(1)).ticks(), 1);
}

#[test]
fn a_full_period_is_one_tick() {
    assert_eq!(APBTickType::from(Duration::from_nanos(12)).ticks(), 1);
}

#[test]
fn one_past_a_period_rounds_up_to_two_ticks() {
    assert_eq!(APBTickType::from(Duration::from_nanos(13)).ticks(), 2);
}

#[test]
fn from_nanos_matches_the_duration_conversion() {
    for nanos in [0u64, 1, 11, 12, 13, 24, 25, 1_000, 999_999_999] {
        assert_eq!(
            APBTickType::from_nanos(nanos as u128).ticks(),
            APBTickType::from(Duration::from_nanos(nanos)).ticks(),
        );
    }
}

#[test]
fn whole_seconds_convert_exactly() {
    // One millisecond is 1_000_000 ns, an exact multiple of the 12 ns tick.
    let t = APBTickType::from(Duration::from_millis(1));
    assert_eq!(t.ticks(), 1_000_000 / 12 + 1); // 1_000_000 = 12 * 83_333 + 4
    assert_eq!(t.ticks(), 83_334);
}

#[test]
fn largest_representable_count_converts() {
    // The largest nanosecond count whose tick count still fits the native
    // i32 tick type.
    let max_fit: u128 = 12 * 0x7fff_ffff;
    let t = APBTickType::from_nanos(max_fit);
    assert_eq!(t.ticks(), i32::MAX);
}
