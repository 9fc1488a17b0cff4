use midi_ma_bridge::components::{ModelFeedbackHandle, ReceivingState, SetupError};
use midi_ma_bridge::config::{
    ButtonConfig, ButtonPosition, DeviceModelConfig, MotorFaderConfig, RotaryEncoderConfig,
};
use midi_ma_bridge::device_model::DeviceModel;
use midi_ma_bridge::ma_interface::{fader_updates_from_poll, FaderValue, Update};
use midi_ma_bridge::midi_message::MidiMessage;
use midi_ma_bridge::normalized::Normalized;
use midi_ma_bridge::objects::{
    flatten_fader_values, Button, Cues, Executor, ExecutorBlock, Fader, ItemGroup,
    PlaybacksResponse, UnknownType1, UnknownType2,
};
use midi_ma_bridge::rotary_encoder::RotaryEncoder;

fn model_config() -> DeviceModelConfig {
    DeviceModelConfig {
        motor_faders: vec![MotorFaderConfig {
            input_midi_byte_0: 0xB0,
            input_midi_byte_1: 0x10,
            output_midi_byte_0: 0xB0,
            output_midi_byte_1: 0x10,
            min_value: None,
            max_value: None,
            input_feedback: None,
            ma_executor_index: 3,
        }],
        rotary_encoders: vec![RotaryEncoderConfig {}],
        buttons: vec![ButtonConfig {
            input_midi_byte_0: 0x90,
            input_midi_byte_1: 0x24,
            output_midi_byte_0: 0x90,
            output_midi_byte_1: 0x24,
            low_value: None,
            high_value: None,
            input_feedback: None,
            ma_executor_index: 5,
            position: ButtonPosition::Mid,
        }],
    }
}

#[test]
fn model_dispatches_to_the_matching_control() {
    let fb = ModelFeedbackHandle::new();
    let mut model = DeviceModel::new(&model_config(), &fb).unwrap();
    let mut fb = fb;
    // a fader frame is consumed without touching the button queues
    let r = model.receive_midi_message(MidiMessage { data: [0xB0, 0x10, 40] }, &mut fb);
    assert_eq!(r, Ok(ReceivingState::Consumed));
    assert!(fb.midi.is_empty());
    // a button frame reaches the button
    let r = model.receive_midi_message(MidiMessage { data: [0x90, 0x24, 127] }, &mut fb);
    assert_eq!(r, Ok(ReceivingState::Consumed));
    assert_eq!(fb.midi.len(), 1);
    assert_eq!(fb.ma.len(), 1);
    // an unknown frame passes through every control
    let r = model.receive_midi_message(MidiMessage { data: [0xA0, 0x01, 2] }, &mut fb);
    assert_eq!(r, Ok(ReceivingState::Pass));
}

#[test]
fn model_new_rejects_closed_channels_with_faders() {
    let mut fb = ModelFeedbackHandle::new();
    fb.ma_closed = true;
    assert!(matches!(DeviceModel::new(&model_config(), &fb), Err(SetupError::ChannelClosed)));
    // without faders nothing touches the channels at construction
    let mut config = model_config();
    config.motor_faders.clear();
    assert!(DeviceModel::new(&config, &fb).is_ok());
}

#[test]
fn model_forwards_console_updates() {
    let fb = ModelFeedbackHandle::new();
    let mut model = DeviceModel::new(&model_config(), &fb).unwrap();
    let mut fb = fb;
    let update = Update::FaderUpdate(FaderValue {
        exec_index: 3,
        fader_value: Normalized::new(1, 1),
    });
    model.receive_update_from_ma(update, &mut fb).unwrap();
    // the fader staged its frame in its own coalescer, so the direct queue
    // stays empty; a button update lands in the queue at once
    assert!(fb.midi.is_empty());
    let update = Update::ButtonUpdate(midi_ma_bridge::ma_interface::ButtonValue {
        exec_index: 5,
        button_value: true,
        position: ButtonPosition::Mid,
    });
    model.receive_update_from_ma(update, &mut fb).unwrap();
    assert_eq!(fb.midi.len(), 1);
    assert_eq!(fb.midi[0].data, [0x90, 0x24, 127]);
}

#[test]
fn encoder_accepts_and_ignores_frames() {
    let mut encoder = RotaryEncoder::new(&RotaryEncoderConfig {});
    assert!(encoder.set_value_from_midi(&MidiMessage { data: [1, 2, 3] }).is_ok());
}

fn block(n: u32, d: u32) -> ExecutorBlock {
    let button = || Button {
        id: 0,
        type_string: String::new(),
        pressed: false,
        text_color: String::new(),
        background_color: None,
    };
    ExecutorBlock {
        button1: button(),
        button2: button(),
        button3: button(),
        fader: Fader {
            background_color: None,
            tt: None,
            value: Normalized::new(n, d),
            value_string: None,
        },
    }
}

fn executor(blocks: Vec<ExecutorBlock>) -> Executor {
    Executor {
        i: UnknownType1 { t: String::new(), color: String::new() },
        o_type: UnknownType2 { t: String::new() },
        o_i: UnknownType2 { t: String::new() },
        tt: UnknownType2 { t: String::new() },
        text_color: String::new(),
        background_color: String::new(),
        cues: Cues {},
        combined_executor_blocks: 0,
        i_exec: 0,
        is_run: 0,
        executor_blocks: blocks,
    }
}

#[test]
fn flatten_walks_the_snapshot_in_document_order() {
    let response = PlaybacksResponse {
        realtime: false,
        response_type: "playbacks".to_string(),
        response_sub_type: 2,
        i_page: 0,
        item_groups: vec![
            ItemGroup {
                items_type: 2,
                cnt_pages: 1,
                items: vec![
                    vec![executor(vec![block(1, 10), block(2, 10)]), executor(vec![block(3, 10)])],
                    vec![executor(vec![])],
                ],
            },
            ItemGroup { items_type: 2, cnt_pages: 1, items: vec![vec![executor(vec![block(4, 10)])]] },
        ],
        world_index: None,
    };
    let values = flatten_fader_values(&response);
    let nums: Vec<u32> = values.iter().map(|v| v.num).collect();
    assert_eq!(nums, vec![1, 2, 3, 4]);
}

#[test]
fn poll_values_become_indexed_fader_updates() {
    let values = vec![Normalized::new(1, 2), Normalized::new(3, 4)];
    let updates = fader_updates_from_poll(&values);
    assert_eq!(updates.len(), 2);
    assert_eq!(
        updates[0],
        Update::FaderUpdate(FaderValue { exec_index: 0, fader_value: Normalized::new(1, 2) })
    );
    assert_eq!(
        updates[1],
        Update::FaderUpdate(FaderValue { exec_index: 1, fader_value: Normalized::new(3, 4) })
    );
}
