use midi_ma_bridge::config::MotorFaderConfig;
use midi_ma_bridge::normalized::{fader_value_to_ma_value, ma_value_to_fader_value, Normalized};

fn window(min: Option<u8>, max: Option<u8>) -> MotorFaderConfig {
    MotorFaderConfig {
        input_midi_byte_0: 0xB0,
        input_midi_byte_1: 0x10,
        output_midi_byte_0: 0xB0,
        output_midi_byte_1: 0x10,
        min_value: min,
        max_value: max,
        input_feedback: None,
        ma_executor_index: 0,
    }
}

#[test]
fn norm_of_64_in_default_window() {
    let config = window(None, None);
    let n = fader_value_to_ma_value(&config, 64);
    assert_eq!(n.num, 64);
    assert_eq!(n.den, 127);
}

#[test]
fn norm_saturates_below_window() {
    let config = window(Some(10), Some(120));
    let n = fader_value_to_ma_value(&config, 5);
    assert_eq!(n.num, 0);
    assert_eq!(n.den, 120);
}

#[test]
fn round_trip_is_exact_within_window() {
    let config = window(None, None);
    for v in 0u8..=127 {
        let n = fader_value_to_ma_value(&config, v);
        assert_eq!(ma_value_to_fader_value(&config, n), v);
    }
    let shifted = window(Some(10), Some(100));
    for v in 10u8..=127 {
        let n = fader_value_to_ma_value(&shifted, v);
        assert_eq!(ma_value_to_fader_value(&shifted, n), v);
    }
}

#[test]
fn norm_is_monotone() {
    let config = window(Some(4), Some(100));
    let mut previous = 0u64;
    for v in 0u8..=127 {
        let n = fader_value_to_ma_value(&config, v);
        // compare n.num/n.den against the previous fraction over one
        // denominator
        let scaled = n.num as u64;
        assert!(scaled >= previous);
        previous = scaled;
    }
}

#[test]
fn full_scale_update_saturates_at_127() {
    let config = window(Some(10), None);
    let full = Normalized::new(1, 1);
    assert_eq!(ma_value_to_fader_value(&config, full), 127);
}

#[test]
fn half_scale_update_rounds() {
    let config = window(None, None);
    // 0.5 * 127 = 63.5 rounds half-up to 64
    let half = Normalized::new(1, 2);
    assert_eq!(ma_value_to_fader_value(&config, half), 64);
}
