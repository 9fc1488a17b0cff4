//! Pattern-based mapping between three-byte MIDI frames and typed control
//! state. A fader pattern carries a `u8` level, a button pattern a `bool`
//! pressed state. Patterns are pure: they hold configuration only.

use vstd::prelude::*;

use crate::config::{ButtonConfig, MotorFaderConfig};
use crate::midi_message::MidiMessage;

verus! {

/// What decoding an inbound frame against a fader pattern yields: the value
/// byte, exactly when the frame's first two bytes equal the configured input
/// key.
pub open spec fn spec_fader_decode(config: MotorFaderConfig, message: MidiMessage) -> Option<
    u8,
> {
    if message.data[0] == config.input_midi_byte_0 && message.data[1]
        == config.input_midi_byte_1 {
        Some(message.data[2])
    } else {
        None
    }
}

/// The frame a fader pattern emits for a level: the configured output key
/// followed by the level clamped to the seven-bit MIDI range.
pub open spec fn spec_fader_encode(config: MotorFaderConfig, value: u8) -> MidiMessage {
    MidiMessage {
        data: [
            config.output_midi_byte_0,
            config.output_midi_byte_1,
            if value > 127 {
                127u8
            } else {
                value
            },
        ],
    }
}

/// What decoding an inbound frame against a button pattern yields: pressed
/// exactly when the value byte differs from the configured low value, and
/// only for frames matching the configured input key.
pub open spec fn spec_button_decode(config: ButtonConfig, message: MidiMessage) -> Option<
    bool,
> {
    if message.data[0] == config.input_midi_byte_0 && message.data[1]
        == config.input_midi_byte_1 {
        Some(message.data[2] != config.spec_low())
    } else {
        None
    }
}

/// The frame a button pattern emits for a state: the configured output key
/// followed by the high value when pressed, the low value otherwise.
pub open spec fn spec_button_encode(config: ButtonConfig, state: bool) -> MidiMessage {
    MidiMessage {
        data: [
            config.output_midi_byte_0,
            config.output_midi_byte_1,
            if state {
                config.spec_high()
            } else {
                config.spec_low()
            },
        ],
    }
}

/// Maps frames whose `[status, data1]` equal the configured input key to the
/// `u8` carried in `data2`, and levels to frames under the configured output
/// key.
pub struct FaderPattern {
    pub config: MotorFaderConfig,
}

impl FaderPattern {
    /// The configuration this pattern was built from.
    pub open spec fn spec_config(self) -> MotorFaderConfig {
        self.config
    }

    pub fn new(config: MotorFaderConfig) -> (r: Self)
        ensures
            r.spec_config() == config,
    {
        FaderPattern { config }
    }

    /// Decodes an inbound frame. Succeeds exactly when the frame's first two
    /// bytes equal the configured input key; the value byte is the level.
    pub fn resolve_value_from_input(&self, message: &MidiMessage) -> (r: Result<u8, ()>)
        ensures
            r is Ok <==> spec_fader_decode(self.spec_config(), *message) is Some,
            r matches Ok(v) ==> spec_fader_decode(self.spec_config(), *message) == Some(v),
    {
        if message.data[0] == self.config.input_midi_byte_0 && message.data[1]
            == self.config.input_midi_byte_1 {
            Ok(message.data[2])
        } else {
            Err(())
        }
    }

    /// Builds the outbound frame for a level.
    pub fn create_output_message_from_state(&self, value: u8) -> (r: MidiMessage)
        ensures
            r == spec_fader_encode(self.spec_config(), value),
    {
        let clamped: u8 = if value > 127 {
            127
        } else {
            value
        };
        MidiMessage {
            data: [self.config.output_midi_byte_0, self.config.output_midi_byte_1, clamped],
        }
    }
}

/// Maps frames whose `[status, data1]` equal the configured input key to a
/// pressed state, and states to frames under the configured output key.
pub struct ButtonPattern {
    pub config: ButtonConfig,
}

impl ButtonPattern {
    /// The configuration this pattern was built from.
    pub open spec fn spec_config(self) -> ButtonConfig {
        self.config
    }

    pub fn new(config: ButtonConfig) -> (r: Self)
        ensures
            r.spec_config() == config,
    {
        ButtonPattern { config }
    }

    /// Decodes an inbound frame. Succeeds exactly when the frame's first two
    /// bytes equal the configured input key; the state is whether the value
    /// byte differs from the configured low value.
    pub fn resolve_value_from_input(&self, message: &MidiMessage) -> (r: Result<bool, ()>)
        ensures
            r is Ok <==> spec_button_decode(self.spec_config(), *message) is Some,
            r matches Ok(s) ==> spec_button_decode(self.spec_config(), *message) == Some(s),
    {
        if message.data[0] == self.config.input_midi_byte_0 && message.data[1]
            == self.config.input_midi_byte_1 {
            Ok(message.data[2] != self.config.effective_low())
        } else {
            Err(())
        }
    }

    /// Builds the outbound frame for a state.
    pub fn create_output_message_from_state(&self, state: bool) -> (r: MidiMessage)
        ensures
            r == spec_button_encode(self.spec_config(), state),
    {
        let value: u8 = if state {
            self.config.effective_high()
        } else {
            self.config.effective_low()
        };
        MidiMessage {
            data: [self.config.output_midi_byte_0, self.config.output_midi_byte_1, value],
        }
    }
}

/// A fader pattern whose output key equals its input key hands every
/// seven-bit level through a round trip unchanged: decoding the frame encoded
/// for `value` yields `value` again. (With distinct input and output keys the
/// encoded frame does not match the input key and decoding misses.)
pub proof fn lemma_fader_pattern_round_trip(config: MotorFaderConfig, value: u8)
    requires
        config.input_midi_byte_0 == config.output_midi_byte_0,
        config.input_midi_byte_1 == config.output_midi_byte_1,
        value <= 127,
    ensures
        spec_fader_decode(config, spec_fader_encode(config, value)) == Some(value),
{
}

/// A fader pattern decodes a frame exactly when the frame's `[status, data1]`
/// equal the configured input key, and then yields the frame's value byte.
pub proof fn lemma_fader_decode_locality(config: MotorFaderConfig, message: MidiMessage)
    ensures
        spec_fader_decode(config, message) is Some <==> (message.data[0]
            == config.input_midi_byte_0 && message.data[1] == config.input_midi_byte_1),
        spec_fader_decode(config, message) is Some ==> spec_fader_decode(config, message)
            == Some(message.data[2]),
{
}

} // verus!
