//! The button control: edge-triggered, low-rate, no coalescing. A state
//! change pushes a feedback frame toward the surface and an update toward
//! the console through the model's feedback queues.

use vstd::prelude::*;

use crate::components::{ModelFeedbackHandle, ReceivingError, ReceivingState};
use crate::config::ButtonConfig;
use crate::ma_interface::{ButtonValue, Update};
use crate::midi_message::MidiMessage;
use crate::midi_pattern::{spec_button_decode, spec_button_encode, ButtonPattern};

verus! {

/// The update a button with configuration `config` and state `state` emits
/// toward the console.
pub open spec fn spec_button_update_of(config: ButtonConfig, state: bool) -> Update {
    Update::ButtonUpdate(
        ButtonValue {
            exec_index: config.ma_executor_index,
            button_value: state,
            position: config.position,
        },
    )
}

/// One button.
pub struct Button {
    pub pattern: ButtonPattern,
    pub current_state: bool,
    pub config: ButtonConfig,
}

impl Button {
    /// The configuration this button was built from.
    pub open spec fn spec_config(self) -> ButtonConfig {
        self.config
    }

    /// The current pressed state.
    pub open spec fn spec_current(self) -> bool {
        self.current_state
    }

    /// Well-formedness: the pattern was built from the same configuration.
    pub open spec fn wf(self) -> bool {
        self.pattern.spec_config() == self.config
    }

    /// The state of handling one inbound MIDI frame: the new button, the
    /// frames and updates pushed, and the outcome.
    ///
    /// A frame that misses the input key passes. A matching frame carrying
    /// the current state is consumed silently. A changed state is stored,
    /// the feedback frame pushed toward the surface, then the update pushed
    /// toward the console; a closed sink surfaces its error after the state
    /// was stored, surface side first.
    pub open spec fn spec_midi_step(self, message: MidiMessage, midi_closed: bool, ma_closed: bool) -> (
        Button,
        Seq<MidiMessage>,
        Seq<Update>,
        Result<ReceivingState, ReceivingError>,
    ) {
        match spec_button_decode(self.config, message) {
            None => (self, Seq::empty(), Seq::empty(), Ok(ReceivingState::Pass)),
            Some(s) => {
                if s == self.current_state {
                    (self, Seq::empty(), Seq::empty(), Ok(ReceivingState::Consumed))
                } else {
                    let flipped = Button { current_state: s, ..self };
                    if midi_closed {
                        (flipped, Seq::empty(), Seq::empty(), Err(ReceivingError::MidiError))
                    } else if ma_closed {
                        (
                            flipped,
                            seq![spec_button_encode(self.config, s)],
                            Seq::empty(),
                            Err(ReceivingError::MaError),
                        )
                    } else {
                        (
                            flipped,
                            seq![spec_button_encode(self.config, s)],
                            seq![spec_button_update_of(self.config, s)],
                            Ok(ReceivingState::Consumed),
                        )
                    }
                }
            },
        }
    }

    /// The state of handling one console update: the new button, the frames
    /// pushed toward the surface, and the outcome.
    ///
    /// Only button updates for this button's executor and position are
    /// considered; a changed state is stored and the feedback frame pushed
    /// toward the surface.
    pub open spec fn spec_ma_step(self, update: Update, midi_closed: bool) -> (
        Button,
        Seq<MidiMessage>,
        Result<(), ReceivingError>,
    ) {
        match update {
            Update::FaderUpdate(_) => (self, Seq::empty(), Ok(())),
            Update::ButtonUpdate(bv) => {
                if bv.exec_index != self.config.ma_executor_index || bv.position
                    != self.config.position {
                    (self, Seq::empty(), Ok(()))
                } else if bv.button_value == self.current_state {
                    (self, Seq::empty(), Ok(()))
                } else {
                    let flipped = Button { current_state: bv.button_value, ..self };
                    if midi_closed {
                        (flipped, Seq::empty(), Err(ReceivingError::MidiError))
                    } else {
                        (
                            flipped,
                            seq![spec_button_encode(self.config, bv.button_value)],
                            Ok(()),
                        )
                    }
                }
            },
        }
    }

    /// Builds a released button.
    pub fn new(config: ButtonConfig) -> (r: Button)
        ensures
            r.wf(),
            r.spec_config() == config,
            !r.spec_current(),
    {
        Button { pattern: ButtonPattern::new(config), current_state: false, config }
    }

    /// The executor this button binds to.
    pub fn get_executor_index(&self) -> (r: u8)
        ensures
            r == self.spec_config().ma_executor_index,
    {
        self.config.ma_executor_index
    }

    /// The current pressed state.
    pub fn get_state(&self) -> (r: bool)
        ensures
            r == self.spec_current(),
    {
        self.current_state
    }

    /// The update this button emits toward the console for its current
    /// state.
    pub fn get_update(&self) -> (r: Update)
        ensures
            r == spec_button_update_of(self.spec_config(), self.spec_current()),
    {
        Update::ButtonUpdate(
            ButtonValue {
                exec_index: self.config.ma_executor_index,
                button_value: self.current_state,
                position: self.config.position,
            },
        )
    }

    /// Handles one inbound MIDI frame, per [`Button::spec_midi_step`].
    pub fn receive_midi_message(&mut self, message: MidiMessage, fb: &mut ModelFeedbackHandle) -> (r:
        Result<ReceivingState, ReceivingError>)
        requires
            old(self).wf(),
        ensures
            final(self).wf(),
            *final(self) == old(self).spec_midi_step(message, old(fb).midi_closed, old(fb).ma_closed).0,
            final(fb).midi@ =~= old(fb).midi@ + old(self).spec_midi_step(message, old(fb).midi_closed, old(fb).ma_closed).1,
            final(fb).ma@ =~= old(fb).ma@ + old(self).spec_midi_step(message, old(fb).midi_closed, old(fb).ma_closed).2,
            r == old(self).spec_midi_step(message, old(fb).midi_closed, old(fb).ma_closed).3,
            final(fb).ma_closed == old(fb).ma_closed,
            final(fb).midi_closed == old(fb).midi_closed,
            (r matches Ok(s) && s is Pass) <==> spec_button_decode(
                old(self).spec_config(),
                message,
            ) is None,
            spec_button_decode(old(self).spec_config(), message) is None ==> *final(self) == *old(
                self,
            ) && final(fb).midi@ == old(fb).midi@ && final(fb).ma@ == old(fb).ma@,
    {
        let decoded = self.pattern.resolve_value_from_input(&message);
        match decoded {
            Err(_) => {
                Ok(ReceivingState::Pass)
            },
            Ok(s) => {
                if s == self.current_state {
                    Ok(ReceivingState::Consumed)
                } else {
                    self.current_state = s;
                    if fb.midi_closed {
                        return Err(ReceivingError::MidiError);
                    }
                    let frame = self.pattern.create_output_message_from_state(s);
                    fb.midi.push(frame);
                    if fb.ma_closed {
                        return Err(ReceivingError::MaError);
                    }
                    let update = self.get_update();
                    fb.ma.push(update);
                    Ok(ReceivingState::Consumed)
                }
            },
        }
    }

    /// Handles one console update, per [`Button::spec_ma_step`].
    pub fn receive_update_from_ma(&mut self, update: Update, fb: &mut ModelFeedbackHandle) -> (r:
        Result<(), ReceivingError>)
        requires
            old(self).wf(),
        ensures
            final(self).wf(),
            *final(self) == old(self).spec_ma_step(update, old(fb).midi_closed).0,
            final(fb).midi@ =~= old(fb).midi@ + old(self).spec_ma_step(update, old(fb).midi_closed).1,
            final(fb).ma@ == old(fb).ma@,
            r == old(self).spec_ma_step(update, old(fb).midi_closed).2,
            final(fb).ma_closed == old(fb).ma_closed,
            final(fb).midi_closed == old(fb).midi_closed,
    {
        match update {
            Update::FaderUpdate(_) => {
                Ok(())
            },
            Update::ButtonUpdate(bv) => {
                if bv.exec_index != self.config.ma_executor_index || bv.position
                    != self.config.position {
                    return Ok(());
                }
                if bv.button_value == self.current_state {
                    return Ok(());
                }
                self.current_state = bv.button_value;
                if fb.midi_closed {
                    return Err(ReceivingError::MidiError);
                }
                let frame = self.pattern.create_output_message_from_state(self.current_state);
                fb.midi.push(frame);
                Ok(())
            },
        }
    }
}

/// Button idempotence: a decoded state change followed by the same decoded
/// state again produces exactly one MIDI feedback frame and one console
/// update over the two receipts — the second receipt matches the stored
/// state and emits nothing. (A receipt of the state the button already
/// holds emits nothing at all, so the premise asks for a change.)
pub proof fn lemma_button_idempotence(b: Button, message: MidiMessage)
    requires
        spec_button_decode(b.spec_config(), message) is Some,
        spec_button_decode(b.spec_config(), message) != Some(b.spec_current()),
    ensures
        b.spec_midi_step(message, false, false).1.len() + b.spec_midi_step(
            message,
            false,
            false,
        ).0.spec_midi_step(message, false, false).1.len() == 1,
        b.spec_midi_step(message, false, false).2.len() + b.spec_midi_step(
            message,
            false,
            false,
        ).0.spec_midi_step(message, false, false).2.len() == 1,
{
}

} // verus!
