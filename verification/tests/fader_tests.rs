use midi_ma_bridge::components::ReceivingState;
use midi_ma_bridge::config::MotorFaderConfig;
use midi_ma_bridge::fader::Fader;
use midi_ma_bridge::ma_interface::{FaderValue, Update};
use midi_ma_bridge::midi_message::MidiMessage;
use midi_ma_bridge::normalized::Normalized;
use midi_ma_bridge::periodic_update_sender::TickOutcome;

fn fader_a() -> Fader {
    let config = MotorFaderConfig {
        input_midi_byte_0: 0xB0,
        input_midi_byte_1: 0x10,
        output_midi_byte_0: 0xB0,
        output_midi_byte_1: 0x10,
        min_value: Some(0),
        max_value: Some(127),
        input_feedback: Some(true),
        ma_executor_index: 3,
    };
    Fader::new(config, false, false).unwrap()
}

#[test]
fn fader_new_rejects_zero_window() {
    let config = MotorFaderConfig {
        input_midi_byte_0: 0,
        input_midi_byte_1: 0,
        output_midi_byte_0: 0,
        output_midi_byte_1: 0,
        min_value: None,
        max_value: Some(0),
        input_feedback: None,
        ma_executor_index: 0,
    };
    assert!(Fader::new(config, false, false).is_err());
}

#[test]
fn fader_new_rejects_closed_channel() {
    let config = MotorFaderConfig {
        input_midi_byte_0: 0,
        input_midi_byte_1: 0,
        output_midi_byte_0: 0,
        output_midi_byte_1: 0,
        min_value: None,
        max_value: None,
        input_feedback: None,
        ma_executor_index: 0,
    };
    assert!(Fader::new(config, true, false).is_err());
    assert!(Fader::new(config, false, true).is_err());
}

#[test]
fn fader_up_stages_update_and_echo() {
    // move the fader to 64 from the hardware side
    let mut fader = fader_a();
    let result = fader.receive_midi_message(MidiMessage { data: [0xB0, 0x10, 64] });
    assert_eq!(result, Ok(ReceivingState::Consumed));
    assert_eq!(fader.get_value(), 64);
    assert!(fader.is_sending_to_ma());
    // the coalescer's first tick emits the normalized update toward the
    // console
    let update = fader.tick_ma();
    assert_eq!(
        update,
        TickOutcome::Emit(Update::FaderUpdate(FaderValue {
            exec_index: 3,
            fader_value: Normalized::new(64, 127),
        }))
    );
    // the echo frame is staged toward the motor
    assert!(fader.is_sending_to_midi());
    let echo = fader.tick_midi();
    assert_eq!(echo, TickOutcome::Emit(MidiMessage { data: [0xB0, 0x10, 64] }));
}

#[test]
fn same_level_again_is_consumed_silently() {
    let mut fader = fader_a();
    fader.receive_midi_message(MidiMessage { data: [0xB0, 0x10, 64] }).unwrap();
    while fader.is_sending_to_ma() {
        fader.tick_ma();
    }
    let result = fader.receive_midi_message(MidiMessage { data: [0xB0, 0x10, 64] });
    assert_eq!(result, Ok(ReceivingState::Consumed));
    assert!(!fader.is_sending_to_ma());
}

#[test]
fn foreign_frame_passes() {
    let mut fader = fader_a();
    let result = fader.receive_midi_message(MidiMessage { data: [0xB1, 0x10, 64] });
    assert_eq!(result, Ok(ReceivingState::Pass));
    assert_eq!(fader.get_value(), 0);
    assert!(!fader.is_sending_to_ma());
}

#[test]
fn feedback_ignored_while_driving() {
    // scenario: the user drives the fader, then the console polls back an
    // older level — the echo-suppression rule drops it
    let mut fader = fader_a();
    fader.receive_midi_message(MidiMessage { data: [0xB0, 0x10, 64] }).unwrap();
    assert!(fader.is_sending_to_ma());
    let update = Update::FaderUpdate(FaderValue {
        exec_index: 3,
        fader_value: Normalized::new(0, 127),
    });
    fader.receive_update_from_ma(update).unwrap();
    assert_eq!(fader.get_value(), 64);
}

#[test]
fn feedback_applied_when_idle() {
    let mut fader = fader_a();
    fader.receive_midi_message(MidiMessage { data: [0xB0, 0x10, 64] }).unwrap();
    // drain both coalescers to idle: first tick emits, second exits
    while fader.is_sending_to_ma() {
        fader.tick_ma();
    }
    while fader.is_sending_to_midi() {
        fader.tick_midi();
    }
    let update = Update::FaderUpdate(FaderValue {
        exec_index: 3,
        fader_value: Normalized::new(1, 1),
    });
    fader.receive_update_from_ma(update).unwrap();
    assert_eq!(fader.get_value(), 127);
    assert!(fader.is_sending_to_midi());
    let frame = fader.tick_midi();
    assert_eq!(frame, TickOutcome::Emit(MidiMessage { data: [0xB0, 0x10, 127] }));
}

#[test]
fn feedback_for_other_executor_is_ignored() {
    let mut fader = fader_a();
    let update = Update::FaderUpdate(FaderValue {
        exec_index: 4,
        fader_value: Normalized::new(1, 1),
    });
    fader.receive_update_from_ma(update).unwrap();
    assert_eq!(fader.get_value(), 0);
    assert!(!fader.is_sending_to_midi());
}

#[test]
fn no_echo_when_input_feedback_off() {
    let config = MotorFaderConfig {
        input_midi_byte_0: 0xB0,
        input_midi_byte_1: 0x10,
        output_midi_byte_0: 0xB0,
        output_midi_byte_1: 0x10,
        min_value: None,
        max_value: None,
        input_feedback: Some(false),
        ma_executor_index: 3,
    };
    let mut fader = Fader::new(config, false, false).unwrap();
    fader.receive_midi_message(MidiMessage { data: [0xB0, 0x10, 64] }).unwrap();
    assert!(fader.is_sending_to_ma());
    assert!(!fader.is_sending_to_midi());
}
