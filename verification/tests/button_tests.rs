use midi_ma_bridge::button::Button;
use midi_ma_bridge::components::{ModelFeedbackHandle, ReceivingError, ReceivingState};
use midi_ma_bridge::config::{ButtonConfig, ButtonPosition};
use midi_ma_bridge::ma_interface::{ButtonValue, Update};
use midi_ma_bridge::midi_message::MidiMessage;

fn button_b() -> Button {
    Button::new(ButtonConfig {
        input_midi_byte_0: 0x90,
        input_midi_byte_1: 0x24,
        output_midi_byte_0: 0x90,
        output_midi_byte_1: 0x24,
        low_value: Some(0),
        high_value: Some(127),
        input_feedback: None,
        ma_executor_index: 5,
        position: ButtonPosition::Mid,
    })
}

#[test]
fn button_press_emits_update_and_feedback() {
    let mut button = button_b();
    let mut fb = ModelFeedbackHandle::new();
    let result = button.receive_midi_message(MidiMessage { data: [0x90, 0x24, 127] }, &mut fb);
    assert_eq!(result, Ok(ReceivingState::Consumed));
    assert!(button.get_state());
    assert_eq!(fb.midi.len(), 1);
    assert_eq!(fb.midi[0].data, [0x90, 0x24, 127]);
    assert_eq!(fb.ma.len(), 1);
    assert_eq!(
        fb.ma[0],
        Update::ButtonUpdate(ButtonValue {
            exec_index: 5,
            button_value: true,
            position: ButtonPosition::Mid,
        })
    );
}

#[test]
fn same_state_twice_emits_once() {
    // button idempotence: the second identical receipt changes nothing
    let mut button = button_b();
    let mut fb = ModelFeedbackHandle::new();
    let press = MidiMessage { data: [0x90, 0x24, 127] };
    button.receive_midi_message(press, &mut fb).unwrap();
    let second = button.receive_midi_message(press, &mut fb);
    assert_eq!(second, Ok(ReceivingState::Consumed));
    assert_eq!(fb.midi.len(), 1);
    assert_eq!(fb.ma.len(), 1);
}

#[test]
fn release_after_press_emits_again() {
    let mut button = button_b();
    let mut fb = ModelFeedbackHandle::new();
    button.receive_midi_message(MidiMessage { data: [0x90, 0x24, 127] }, &mut fb).unwrap();
    button.receive_midi_message(MidiMessage { data: [0x90, 0x24, 0] }, &mut fb).unwrap();
    assert!(!button.get_state());
    assert_eq!(fb.midi.len(), 2);
    assert_eq!(fb.midi[1].data, [0x90, 0x24, 0]);
    assert_eq!(fb.ma.len(), 2);
}

#[test]
fn foreign_button_frame_passes() {
    let mut button = button_b();
    let mut fb = ModelFeedbackHandle::new();
    let result = button.receive_midi_message(MidiMessage { data: [0x91, 0x24, 127] }, &mut fb);
    assert_eq!(result, Ok(ReceivingState::Pass));
    assert!(fb.midi.is_empty());
    assert!(fb.ma.is_empty());
}

#[test]
fn console_update_moves_the_led() {
    let mut button = button_b();
    let mut fb = ModelFeedbackHandle::new();
    let update = Update::ButtonUpdate(ButtonValue {
        exec_index: 5,
        button_value: true,
        position: ButtonPosition::Mid,
    });
    button.receive_update_from_ma(update, &mut fb).unwrap();
    assert!(button.get_state());
    assert_eq!(fb.midi.len(), 1);
    assert_eq!(fb.midi[0].data, [0x90, 0x24, 127]);
    // console updates are not echoed back to the console
    assert!(fb.ma.is_empty());
}

#[test]
fn console_update_filters_executor_and_position() {
    let mut button = button_b();
    let mut fb = ModelFeedbackHandle::new();
    let wrong_exec = Update::ButtonUpdate(ButtonValue {
        exec_index: 6,
        button_value: true,
        position: ButtonPosition::Mid,
    });
    button.receive_update_from_ma(wrong_exec, &mut fb).unwrap();
    let wrong_position = Update::ButtonUpdate(ButtonValue {
        exec_index: 5,
        button_value: true,
        position: ButtonPosition::Top,
    });
    button.receive_update_from_ma(wrong_position, &mut fb).unwrap();
    assert!(!button.get_state());
    assert!(fb.midi.is_empty());
}

#[test]
fn closed_midi_sink_surfaces_error() {
    let mut button = button_b();
    let mut fb = ModelFeedbackHandle::new();
    fb.midi_closed = true;
    let result = button.receive_midi_message(MidiMessage { data: [0x90, 0x24, 127] }, &mut fb);
    assert_eq!(result, Err(ReceivingError::MidiError));
    assert!(fb.midi.is_empty());
}

#[test]
fn closed_ma_sink_surfaces_error_after_feedback() {
    let mut button = button_b();
    let mut fb = ModelFeedbackHandle::new();
    fb.ma_closed = true;
    let result = button.receive_midi_message(MidiMessage { data: [0x90, 0x24, 127] }, &mut fb);
    assert_eq!(result, Err(ReceivingError::MaError));
    assert_eq!(fb.midi.len(), 1);
    assert!(fb.ma.is_empty());
}
