//! The rotary-encoder control: a recognized control kind whose MIDI
//! protocol is not yet defined. It accepts frames and performs no action.

use vstd::prelude::*;

use crate::config::RotaryEncoderConfig;
use crate::midi_message::MidiMessage;

verus! {

/// One rotary encoder. A placeholder until the encoder MIDI protocol is
/// defined: it holds its configuration and ignores every frame.
pub struct RotaryEncoder {
    pub config: RotaryEncoderConfig,
}

impl RotaryEncoder {
    /// The configuration this encoder was built from.
    pub open spec fn spec_config(self) -> RotaryEncoderConfig {
        self.config
    }

    pub fn new(config: &RotaryEncoderConfig) -> (r: Self)
        ensures
            r.spec_config() == *config,
    {
        RotaryEncoder { config: *config }
    }

    /// Accepts a frame and does nothing: encoder handling is a placeholder.
    pub fn set_value_from_midi(&mut self, message: &MidiMessage) -> (r: Result<(), ()>)
        ensures
            r is Ok,
            *final(self) == *old(self),
    {
        let _ = message;
        Ok(())
    }
}

} // verus!
