//! The motorized-fader control: per-fader state, direction arbitration and
//! echo suppression. Hardware moves flow through a coalescer toward the
//! console; console feedback flows through a second coalescer back to the
//! motor, and is ignored while the hardware side is driving.

use vstd::prelude::*;

use crate::components::{ReceivingError, ReceivingState, SetupError};
use crate::config::MotorFaderConfig;
use crate::ma_interface::{FaderValue, Update};
use crate::midi_message::MidiMessage;
use crate::midi_pattern::{spec_fader_decode, spec_fader_encode, FaderPattern};
use crate::normalized::{
    fader_value_to_ma_value, ma_value_to_fader_value, spec_fader_to_norm, spec_norm_to_fader,
};
use crate::periodic_update_sender::{
    spec_after_set, spec_after_tick, PeriodicUpdateSender, TickOutcome,
};

verus! {

/// The update a fader with configuration `config` and level `current` sends
/// toward the console.
pub open spec fn spec_fader_update_of(config: MotorFaderConfig, current: u8) -> Update {
    Update::FaderUpdate(
        FaderValue {
            exec_index: config.ma_executor_index,
            fader_value: spec_fader_to_norm(config, current),
        },
    )
}

/// One motorized fader.
pub struct Fader {
    pub config: MotorFaderConfig,
    pub pattern: FaderPattern,
    pub current_state: u8,
    pub ma_update_sender: PeriodicUpdateSender<Update>,
    pub midi_update_sender: PeriodicUpdateSender<MidiMessage>,
}

impl Fader {
    /// The configuration this fader was built from.
    pub open spec fn spec_config(self) -> MotorFaderConfig {
        self.config
    }

    /// The current MIDI level.
    pub open spec fn spec_current(self) -> u8 {
        self.current_state
    }

    /// The coalescer toward the console.
    pub open spec fn spec_ma_sender(self) -> PeriodicUpdateSender<Update> {
        self.ma_update_sender
    }

    /// The coalescer toward the surface.
    pub open spec fn spec_midi_sender(self) -> PeriodicUpdateSender<MidiMessage> {
        self.midi_update_sender
    }

    /// Well-formedness: a usable value window, a pattern built from the same
    /// configuration, and coalescers whose failure flags are consistent.
    pub open spec fn wf(self) -> bool {
        &&& self.config.wf()
        &&& self.pattern.spec_config() == self.config
        &&& self.ma_update_sender.wf()
        &&& self.midi_update_sender.wf()
    }

    /// The state and outcome of handling one inbound MIDI frame.
    ///
    /// A frame that misses the input key passes. A matching frame carrying
    /// the current level is consumed silently. A new level is stored, the
    /// normalized update is staged toward the console, and — when input
    /// feedback is configured — the echoed frame is staged toward the motor.
    /// A coalescer whose sink failed surfaces its error after the level was
    /// stored, console side first.
    pub open spec fn spec_midi_step(self, message: MidiMessage) -> (
        Fader,
        Result<ReceivingState, ReceivingError>,
    ) {
        match spec_fader_decode(self.config, message) {
            None => (self, Ok(ReceivingState::Pass)),
            Some(v) => {
                if v == self.current_state {
                    (self, Ok(ReceivingState::Consumed))
                } else {
                    let staged = Fader {
                        current_state: v,
                        ma_update_sender: spec_after_set(
                            self.ma_update_sender,
                            spec_fader_update_of(self.config, v),
                        ),
                        ..self
                    };
                    if self.ma_update_sender.spec_failed() {
                        (staged, Err(ReceivingError::MaError))
                    } else if self.config.spec_input_feedback() {
                        let echoed = Fader {
                            midi_update_sender: spec_after_set(
                                staged.midi_update_sender,
                                spec_fader_encode(self.config, v),
                            ),
                            ..staged
                        };
                        if self.midi_update_sender.spec_failed() {
                            (echoed, Err(ReceivingError::MidiError))
                        } else {
                            (echoed, Ok(ReceivingState::Consumed))
                        }
                    } else {
                        (staged, Ok(ReceivingState::Consumed))
                    }
                }
            },
        }
    }

    /// The state and outcome of handling one console update.
    ///
    /// Only fader updates for this fader's executor are considered; while
    /// the console-bound coalescer is active the hardware side is driving
    /// and the update is ignored. Otherwise the level is mapped back into
    /// the window; a changed level is stored and the frame staged toward the
    /// motor.
    pub open spec fn spec_ma_step(self, update: Update) -> (Fader, Result<(), ReceivingError>) {
        match update {
            Update::ButtonUpdate(_) => (self, Ok(())),
            Update::FaderUpdate(fv) => {
                if fv.exec_index != self.config.ma_executor_index {
                    (self, Ok(()))
                } else if self.ma_update_sender.spec_alive() {
                    (self, Ok(()))
                } else {
                    let v = spec_norm_to_fader(
                        self.config,
                        fv.fader_value.num as int,
                        fv.fader_value.den as int,
                    ) as u8;
                    if v == self.current_state {
                        (self, Ok(()))
                    } else {
                        let moved = Fader {
                            current_state: v,
                            midi_update_sender: spec_after_set(
                                self.midi_update_sender,
                                spec_fader_encode(self.config, v),
                            ),
                            ..self
                        };
                        if self.midi_update_sender.spec_failed() {
                            (moved, Err(ReceivingError::MidiError))
                        } else {
                            (moved, Ok(()))
                        }
                    }
                }
            },
        }
    }

    /// Builds a fader at level 0 with idle coalescers. Construction fails on
    /// a closed sink, as the coalescers' construction did, and on a value
    /// window whose upper end is zero, which no level could be normalized
    /// against.
    pub fn new(config: MotorFaderConfig, ma_closed: bool, midi_closed: bool) -> (r: Result<
        Fader,
        SetupError,
    >)
        ensures
            r is Ok <==> (config.wf() && !ma_closed && !midi_closed),
            !config.wf() ==> r == Err::<Fader, SetupError>(SetupError::InvalidConfig),
            config.wf() && (ma_closed || midi_closed) ==> r == Err::<Fader, SetupError>(
                SetupError::ChannelClosed,
            ),
            r matches Ok(f) ==> f.wf() && f.spec_config() == config && f.spec_current() == 0
                && f.spec_ma_sender().spec_slot() is None && !f.spec_ma_sender().spec_alive()
                && !f.spec_ma_sender().spec_failed() && f.spec_midi_sender().spec_slot() is None
                && !f.spec_midi_sender().spec_alive() && !f.spec_midi_sender().spec_failed(),
    {
        if config.effective_max() == 0 {
            return Err(SetupError::InvalidConfig);
        }
        let ma_update_sender = match PeriodicUpdateSender::new(ma_closed) {
            Ok(s) => s,
            Err(_) => {
                return Err(SetupError::ChannelClosed);
            },
        };
        let midi_update_sender = match PeriodicUpdateSender::new(midi_closed) {
            Ok(s) => s,
            Err(_) => {
                return Err(SetupError::ChannelClosed);
            },
        };
        Ok(
            Fader {
                pattern: FaderPattern::new(config),
                current_state: 0,
                config,
                ma_update_sender,
                midi_update_sender,
            },
        )
    }

    /// The executor this fader binds to.
    pub fn get_executor_index(&self) -> (r: u8)
        ensures
            r == self.spec_config().ma_executor_index,
    {
        self.config.ma_executor_index
    }

    /// The current MIDI level.
    pub fn get_value(&self) -> (r: u8)
        ensures
            r == self.spec_current(),
    {
        self.current_state
    }

    /// The update this fader sends toward the console for its current level.
    pub fn get_update(&self) -> (r: Update)
        requires
            self.wf(),
        ensures
            r == spec_fader_update_of(self.spec_config(), self.spec_current()),
    {
        Update::FaderUpdate(
            FaderValue {
                exec_index: self.config.ma_executor_index,
                fader_value: fader_value_to_ma_value(&self.config, self.current_state),
            },
        )
    }

    /// Handles one inbound MIDI frame, per [`Fader::spec_midi_step`].
    pub fn receive_midi_message(&mut self, message: MidiMessage) -> (r: Result<
        ReceivingState,
        ReceivingError,
    >)
        requires
            old(self).wf(),
        ensures
            final(self).wf(),
            *final(self) == old(self).spec_midi_step(message).0,
            r == old(self).spec_midi_step(message).1,
            (r matches Ok(s) && s is Pass) <==> spec_fader_decode(
                old(self).spec_config(),
                message,
            ) is None,
            spec_fader_decode(old(self).spec_config(), message) is None ==> *final(self) == *old(
                self,
            ),
    {
        let decoded = self.pattern.resolve_value_from_input(&message);
        match decoded {
            Err(_) => Ok(ReceivingState::Pass),
            Ok(v) => {
                if v == self.current_state {
                    Ok(ReceivingState::Consumed)
                } else {
                    self.current_state = v;
                    let update = self.get_update();
                    let ma_result = self.ma_update_sender.set_value(update);
                    if ma_result.is_err() {
                        return Err(ReceivingError::MaError);
                    }
                    if self.config.effective_input_feedback() {
                        let frame = self.pattern.create_output_message_from_state(v);
                        let midi_result = self.midi_update_sender.set_value(frame);
                        if midi_result.is_err() {
                            return Err(ReceivingError::MidiError);
                        }
                    }
                    Ok(ReceivingState::Consumed)
                }
            },
        }
    }

    /// Handles one console update, per [`Fader::spec_ma_step`]. While the
    /// console-bound coalescer is sending, the update leaves the fader
    /// unchanged and produces no MIDI output.
    pub fn receive_update_from_ma(&mut self, update: Update) -> (r: Result<(), ReceivingError>)
        requires
            old(self).wf(),
            update.wf(),
        ensures
            final(self).wf(),
            *final(self) == old(self).spec_ma_step(update).0,
            r == old(self).spec_ma_step(update).1,
            old(self).spec_ma_sender().spec_alive() ==> *final(self) == *old(self) && r is Ok,
    {
        match update {
            Update::ButtonUpdate(_) => Ok(()),
            Update::FaderUpdate(fv) => {
                if fv.exec_index != self.config.ma_executor_index {
                    return Ok(());
                }
                if self.ma_update_sender.is_sending() {
                    return Ok(());
                }
                let v = ma_value_to_fader_value(&self.config, fv.fader_value);
                if v == self.current_state {
                    return Ok(());
                }
                self.current_state = v;
                let frame = self.pattern.create_output_message_from_state(v);
                let midi_result = self.midi_update_sender.set_value(frame);
                if midi_result.is_err() {
                    return Err(ReceivingError::MidiError);
                }
                Ok(())
            },
        }
    }

    /// Whether the console-bound coalescer is active: the local-authority
    /// signal for echo suppression.
    pub fn is_sending_to_ma(&self) -> (r: bool)
        ensures
            r == self.spec_ma_sender().spec_alive(),
    {
        self.ma_update_sender.is_sending()
    }

    /// Whether the motor-bound coalescer is active.
    pub fn is_sending_to_midi(&self) -> (r: bool)
        ensures
            r == self.spec_midi_sender().spec_alive(),
    {
        self.midi_update_sender.is_sending()
    }

    /// One wake-up of the console-bound drainer.
    pub fn tick_ma(&mut self) -> (r: TickOutcome<Update>)
        requires
            old(self).wf(),
            old(self).spec_ma_sender().spec_alive(),
        ensures
            final(self).wf(),
            final(self).spec_ma_sender() == spec_after_tick(old(self).spec_ma_sender()).0,
            old(self).spec_ma_sender().spec_slot() matches Some(v) ==> r == TickOutcome::<
                Update,
            >::Emit(v),
            old(self).spec_ma_sender().spec_slot() is None ==> r is Exit,
            final(self).spec_current() == old(self).spec_current(),
            final(self).spec_config() == old(self).spec_config(),
            final(self).spec_midi_sender() == old(self).spec_midi_sender(),
    {
        self.ma_update_sender.on_tick()
    }

    /// One wake-up of the motor-bound drainer.
    pub fn tick_midi(&mut self) -> (r: TickOutcome<MidiMessage>)
        requires
            old(self).wf(),
            old(self).spec_midi_sender().spec_alive(),
        ensures
            final(self).wf(),
            final(self).spec_midi_sender() == spec_after_tick(old(self).spec_midi_sender()).0,
            old(self).spec_midi_sender().spec_slot() matches Some(v) ==> r == TickOutcome::<
                MidiMessage,
            >::Emit(v),
            old(self).spec_midi_sender().spec_slot() is None ==> r is Exit,
            final(self).spec_current() == old(self).spec_current(),
            final(self).spec_config() == old(self).spec_config(),
            final(self).spec_ma_sender() == old(self).spec_ma_sender(),
    {
        self.midi_update_sender.on_tick()
    }

    /// Reports a closed console sink back to the console-bound coalescer.
    pub fn ma_emit_failed(&mut self)
        requires
            old(self).wf(),
        ensures
            final(self).wf(),
            final(self).spec_ma_sender().spec_failed(),
            !final(self).spec_ma_sender().spec_alive(),
            final(self).spec_current() == old(self).spec_current(),
            final(self).spec_config() == old(self).spec_config(),
            final(self).spec_midi_sender() == old(self).spec_midi_sender(),
    {
        self.ma_update_sender.emit_failed()
    }

    /// Reports a closed MIDI sink back to the motor-bound coalescer.
    pub fn midi_emit_failed(&mut self)
        requires
            old(self).wf(),
        ensures
            final(self).wf(),
            final(self).spec_midi_sender().spec_failed(),
            !final(self).spec_midi_sender().spec_alive(),
            final(self).spec_current() == old(self).spec_current(),
            final(self).spec_config() == old(self).spec_config(),
            final(self).spec_ma_sender() == old(self).spec_ma_sender(),
    {
        self.midi_update_sender.emit_failed()
    }
}

/// Echo suppression: while a fader's console-bound coalescer is sending, any
/// console update — in particular one for this fader's executor — leaves the
/// fader unchanged and stages no MIDI output.
pub proof fn lemma_echo_suppression(f: Fader, update: Update)
    requires
        f.spec_ma_sender().spec_alive(),
    ensures
        f.spec_ma_step(update).0 == f,
        f.spec_ma_step(update).1 == Ok::<(), ReceivingError>(()),
{
}

} // verus!
