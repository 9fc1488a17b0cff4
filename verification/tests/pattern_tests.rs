use midi_ma_bridge::config::{ButtonConfig, ButtonPosition, MotorFaderConfig};
use midi_ma_bridge::midi_message::MidiMessage;
use midi_ma_bridge::midi_pattern::{ButtonPattern, FaderPattern};

fn fader_config() -> MotorFaderConfig {
    MotorFaderConfig {
        input_midi_byte_0: 0xB0,
        input_midi_byte_1: 0x10,
        output_midi_byte_0: 0xB0,
        output_midi_byte_1: 0x10,
        min_value: None,
        max_value: None,
        input_feedback: None,
        ma_executor_index: 3,
    }
}

fn button_config() -> ButtonConfig {
    ButtonConfig {
        input_midi_byte_0: 0x90,
        input_midi_byte_1: 0x24,
        output_midi_byte_0: 0x90,
        output_midi_byte_1: 0x24,
        low_value: None,
        high_value: None,
        input_feedback: None,
        ma_executor_index: 5,
        position: ButtonPosition::Mid,
    }
}

#[test]
fn fader_round_trip_all_levels() {
    let pattern = FaderPattern::new(fader_config());
    for v in 0u8..=127 {
        let message = pattern.create_output_message_from_state(v);
        assert_eq!(pattern.resolve_value_from_input(&message), Ok(v));
    }
}

#[test]
fn fader_decode_matches_input_key_only() {
    let pattern = FaderPattern::new(fader_config());
    let hit = MidiMessage { data: [0xB0, 0x10, 64] };
    assert_eq!(pattern.resolve_value_from_input(&hit), Ok(64));
    let wrong_status = MidiMessage { data: [0xB1, 0x10, 64] };
    assert_eq!(pattern.resolve_value_from_input(&wrong_status), Err(()));
    let wrong_data1 = MidiMessage { data: [0xB0, 0x11, 64] };
    assert_eq!(pattern.resolve_value_from_input(&wrong_data1), Err(()));
}

#[test]
fn fader_encode_clamps_to_seven_bits() {
    let pattern = FaderPattern::new(fader_config());
    let message = pattern.create_output_message_from_state(200);
    assert_eq!(message.data, [0xB0, 0x10, 127]);
}

#[test]
fn button_decode_against_low_value() {
    let pattern = ButtonPattern::new(button_config());
    let pressed = MidiMessage { data: [0x90, 0x24, 127] };
    assert_eq!(pattern.resolve_value_from_input(&pressed), Ok(true));
    let released = MidiMessage { data: [0x90, 0x24, 0] };
    assert_eq!(pattern.resolve_value_from_input(&released), Ok(false));
    let other = MidiMessage { data: [0x91, 0x24, 127] };
    assert_eq!(pattern.resolve_value_from_input(&other), Err(()));
}

#[test]
fn button_encode_uses_configured_values() {
    let mut config = button_config();
    config.low_value = Some(3);
    config.high_value = Some(99);
    let pattern = ButtonPattern::new(config);
    assert_eq!(pattern.create_output_message_from_state(true).data, [0x90, 0x24, 99]);
    assert_eq!(pattern.create_output_message_from_state(false).data, [0x90, 0x24, 3]);
}

#[test]
fn midi_message_from_slice_needs_three_bytes() {
    assert!(MidiMessage::from_slice(&[0xB0, 0x10, 64]).is_ok());
    assert!(MidiMessage::from_slice(&[0xB0, 0x10]).is_err());
    assert!(MidiMessage::from_slice(&[0xB0, 0x10, 64, 0]).is_err());
    let message = MidiMessage::from_slice(&[1, 2, 3]).unwrap();
    assert_eq!(message.data, [1, 2, 3]);
}
