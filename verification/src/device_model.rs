//! The device model: all controls of one surface, with serial dispatch of
//! inbound MIDI frames and of console updates.
//!
//! Faders are tried before buttons and the first control to consume a frame
//! short-circuits; if a fader and a button are misconfigured onto the same
//! input key, the fader wins. Console updates are offered to every control;
//! each control filters by executor and position itself.

use vstd::prelude::*;

use crate::button::Button;
use crate::components::{
    spec_handle_eq, ModelFeedbackHandle, ReceivingError, ReceivingState, SetupError,
};
use crate::config::DeviceModelConfig;
use crate::fader::Fader;
use crate::ma_interface::Update;
use crate::midi_message::MidiMessage;
use crate::midi_pattern::{spec_button_decode, spec_fader_decode};
use crate::periodic_update_sender::{spec_after_tick, TickOutcome};

verus! {

/// The feedback frames pushed toward the surface when every button in
/// `buttons`, in order, handles `update` against the sink flags in `fb`.
pub open spec fn spec_buttons_ma_emissions(
    buttons: Seq<Button>,
    update: Update,
    midi_closed: bool,
) -> Seq<MidiMessage>
    decreases buttons.len(),
{
    if buttons.len() == 0 {
        Seq::empty()
    } else {
        spec_buttons_ma_emissions(buttons.drop_last(), update, midi_closed)
            + buttons.last().spec_ma_step(update, midi_closed).1
    }
}

/// The controls of one surface.
pub struct DeviceModel {
    pub faders: Vec<Fader>,
    pub buttons: Vec<Button>,
}

impl DeviceModel {
    /// The faders, in configuration order.
    pub open spec fn spec_faders(self) -> Seq<Fader> {
        self.faders@
    }

    /// The buttons, in configuration order.
    pub open spec fn spec_buttons(self) -> Seq<Button> {
        self.buttons@
    }

    /// Every control is well-formed.
    pub open spec fn wf(self) -> bool {
        &&& forall|i: int|
            0 <= i < self.spec_faders().len() ==> (#[trigger] self.spec_faders()[i]).wf()
        &&& forall|k: int|
            0 <= k < self.spec_buttons().len() ==> (#[trigger] self.spec_buttons()[k]).wf()
    }

    /// Builds one control per configured entry: faders first, then buttons.
    /// Rotary encoders are configured but perform no action yet, so none is
    /// built. Construction fails on the first fader that cannot be built: an
    /// unusable value window, or — with at least one fader configured — a
    /// feedback sink that is already closed.
    pub fn new(config: &DeviceModelConfig, fb: &ModelFeedbackHandle) -> (r: Result<
        DeviceModel,
        SetupError,
    >)
        ensures
            r is Ok <==> ((forall|i: int|
                0 <= i < config.motor_faders@.len() ==> (
                #[trigger] config.motor_faders@[i]).wf()) && (config.motor_faders@.len() > 0
                ==> !fb.ma_closed && !fb.midi_closed)),
            r matches Ok(m) ==> m.wf() && m.spec_faders().len() == config.motor_faders@.len()
                && m.spec_buttons().len() == config.buttons@.len() && (forall|i: int|
                0 <= i < config.motor_faders@.len() ==> (#[trigger] m.spec_faders()[i]).spec_config()
                    == config.motor_faders@[i] && m.spec_faders()[i].spec_current() == 0
                    && !m.spec_faders()[i].spec_ma_sender().spec_alive() && m.spec_faders()[i].spec_ma_sender().spec_slot() is None
                    && !m.spec_faders()[i].spec_ma_sender().spec_failed()
                    && !m.spec_faders()[i].spec_midi_sender().spec_alive() && m.spec_faders()[i].spec_midi_sender().spec_slot() is None
                    && !m.spec_faders()[i].spec_midi_sender().spec_failed()) && (forall|k: int|
                0 <= k < config.buttons@.len() ==> (#[trigger] m.spec_buttons()[k]).spec_config()
                    == config.buttons@[k] && !m.spec_buttons()[k].spec_current()),
    {
        let mut faders: Vec<Fader> = Vec::new();
        let mut i: usize = 0;
        while i < config.motor_faders.len()
            invariant
                0 <= i <= config.motor_faders@.len(),
                faders@.len() == i,
                forall|j: int| 0 <= j < i ==> (#[trigger] config.motor_faders@[j]).wf(),
                i > 0 ==> !fb.ma_closed && !fb.midi_closed,
                forall|j: int|
                    0 <= j < i ==> (#[trigger] faders@[j]).wf() && faders@[j].spec_config()
                        == config.motor_faders@[j] && faders@[j].spec_current() == 0
                        && !faders@[j].spec_ma_sender().spec_alive() && faders@[j].spec_ma_sender().spec_slot() is None
                        && !faders@[j].spec_ma_sender().spec_failed()
                        && !faders@[j].spec_midi_sender().spec_alive() && faders@[j].spec_midi_sender().spec_slot() is None
                        && !faders@[j].spec_midi_sender().spec_failed(),
            decreases config.motor_faders@.len() - i,
        {
            let fader_config = config.motor_faders[i];
            match Fader::new(fader_config, fb.ma_closed, fb.midi_closed) {
                Ok(f) => {
                    faders.push(f);
                },
                Err(e) => {
                    return Err(e);
                },
            }
            i += 1;
        }
        let mut buttons: Vec<Button> = Vec::new();
        let mut k: usize = 0;
        while k < config.buttons.len()
            invariant
                0 <= k <= config.buttons@.len(),
                buttons@.len() == k,
                forall|j: int|
                    0 <= j < k ==> (#[trigger] buttons@[j]).wf() && buttons@[j].spec_config()
                        == config.buttons@[j] && !buttons@[j].spec_current(),
            decreases config.buttons@.len() - k,
        {
            let button_config = config.buttons[k];
            buttons.push(Button::new(button_config));
            k += 1;
        }
        Ok(DeviceModel { faders, buttons })
    }

    /// How many faders the model holds.
    pub fn fader_count(&self) -> (r: usize)
        ensures
            r == self.spec_faders().len(),
    {
        self.faders.len()
    }

    /// Whether fader `i`'s console-bound coalescer has an active drainer.
    pub fn fader_is_sending_to_ma(&self, i: usize) -> (r: bool)
        requires
            i < self.spec_faders().len(),
        ensures
            r == self.spec_faders()[i as int].spec_ma_sender().spec_alive(),
    {
        self.faders[i].is_sending_to_ma()
    }

    /// Whether fader `i`'s motor-bound coalescer has an active drainer.
    pub fn fader_is_sending_to_midi(&self, i: usize) -> (r: bool)
        requires
            i < self.spec_faders().len(),
        ensures
            r == self.spec_faders()[i as int].spec_midi_sender().spec_alive(),
    {
        self.faders[i].is_sending_to_midi()
    }

    /// One wake-up of fader `i`'s console-bound drainer; the other controls
    /// are untouched.
    pub fn tick_fader_ma(&mut self, i: usize) -> (r: TickOutcome<Update>)
        requires
            old(self).wf(),
            i < old(self).spec_faders().len(),
            old(self).spec_faders()[i as int].spec_ma_sender().spec_alive(),
        ensures
            final(self).wf(),
            final(self).spec_buttons() == old(self).spec_buttons(),
            final(self).spec_faders().len() == old(self).spec_faders().len(),
            forall|j: int|
                0 <= j < old(self).spec_faders().len() && j != i ==> final(self).spec_faders()[j]
                    == old(self).spec_faders()[j],
            final(self).spec_faders()[i as int].spec_ma_sender() == spec_after_tick(
                old(self).spec_faders()[i as int].spec_ma_sender(),
            ).0,
            final(self).spec_faders()[i as int].spec_midi_sender() == old(
                self,
            ).spec_faders()[i as int].spec_midi_sender(),
            final(self).spec_faders()[i as int].spec_current() == old(
                self,
            ).spec_faders()[i as int].spec_current(),
            old(self).spec_faders()[i as int].spec_ma_sender().spec_slot() matches Some(u) ==> r
                == TickOutcome::<Update>::Emit(u),
            old(self).spec_faders()[i as int].spec_ma_sender().spec_slot() is None ==> r is Exit,
    {
        let f = &mut self.faders[i];
        let r = f.tick_ma();
        proof {
            assert forall|j: int| 0 <= j < self.spec_faders().len() implies (
            #[trigger] self.spec_faders()[j]).wf() by {
                if j != i {
                    assert(self.spec_faders()[j] == old(self).spec_faders()[j]);
                }
            }
            assert forall|k: int| 0 <= k < self.spec_buttons().len() implies (
            #[trigger] self.spec_buttons()[k]).wf() by {
                assert(self.spec_buttons()[k] == old(self).spec_buttons()[k]);
            }
        }
        r
    }

    /// One wake-up of fader `i`'s motor-bound drainer; the other controls
    /// are untouched.
    pub fn tick_fader_midi(&mut self, i: usize) -> (r: TickOutcome<MidiMessage>)
        requires
            old(self).wf(),
            i < old(self).spec_faders().len(),
            old(self).spec_faders()[i as int].spec_midi_sender().spec_alive(),
        ensures
            final(self).wf(),
            final(self).spec_buttons() == old(self).spec_buttons(),
            final(self).spec_faders().len() == old(self).spec_faders().len(),
            forall|j: int|
                0 <= j < old(self).spec_faders().len() && j != i ==> final(self).spec_faders()[j]
                    == old(self).spec_faders()[j],
            final(self).spec_faders()[i as int].spec_midi_sender() == spec_after_tick(
                old(self).spec_faders()[i as int].spec_midi_sender(),
            ).0,
            final(self).spec_faders()[i as int].spec_ma_sender() == old(
                self,
            ).spec_faders()[i as int].spec_ma_sender(),
            final(self).spec_faders()[i as int].spec_current() == old(
                self,
            ).spec_faders()[i as int].spec_current(),
            old(self).spec_faders()[i as int].spec_midi_sender().spec_slot() matches Some(m) ==> r
                == TickOutcome::<MidiMessage>::Emit(m),
            old(self).spec_faders()[i as int].spec_midi_sender().spec_slot() is None ==> r is Exit,
    {
        let f = &mut self.faders[i];
        let r = f.tick_midi();
        proof {
            assert forall|j: int| 0 <= j < self.spec_faders().len() implies (
            #[trigger] self.spec_faders()[j]).wf() by {
                if j != i {
                    assert(self.spec_faders()[j] == old(self).spec_faders()[j]);
                }
            }
            assert forall|k: int| 0 <= k < self.spec_buttons().len() implies (
            #[trigger] self.spec_buttons()[k]).wf() by {
                assert(self.spec_buttons()[k] == old(self).spec_buttons()[k]);
            }
        }
        r
    }

    /// Reports a closed console sink back to fader `i`'s coalescer.
    pub fn fail_fader_ma(&mut self, i: usize)
        requires
            old(self).wf(),
            i < old(self).spec_faders().len(),
        ensures
            final(self).wf(),
            final(self).spec_buttons() == old(self).spec_buttons(),
            final(self).spec_faders().len() == old(self).spec_faders().len(),
            forall|j: int|
                0 <= j < old(self).spec_faders().len() && j != i ==> final(self).spec_faders()[j]
                    == old(self).spec_faders()[j],
            final(self).spec_faders()[i as int].spec_ma_sender().spec_failed(),
            !final(self).spec_faders()[i as int].spec_ma_sender().spec_alive(),
    {
        let f = &mut self.faders[i];
        let r = f.ma_emit_failed();
        proof {
            assert forall|j: int| 0 <= j < self.spec_faders().len() implies (
            #[trigger] self.spec_faders()[j]).wf() by {
                if j != i {
                    assert(self.spec_faders()[j] == old(self).spec_faders()[j]);
                }
            }
            assert forall|k: int| 0 <= k < self.spec_buttons().len() implies (
            #[trigger] self.spec_buttons()[k]).wf() by {
                assert(self.spec_buttons()[k] == old(self).spec_buttons()[k]);
            }
        }
        r
    }

    /// Reports a closed MIDI sink back to fader `i`'s coalescer.
    pub fn fail_fader_midi(&mut self, i: usize)
        requires
            old(self).wf(),
            i < old(self).spec_faders().len(),
        ensures
            final(self).wf(),
            final(self).spec_buttons() == old(self).spec_buttons(),
            final(self).spec_faders().len() == old(self).spec_faders().len(),
            forall|j: int|
                0 <= j < old(self).spec_faders().len() && j != i ==> final(self).spec_faders()[j]
                    == old(self).spec_faders()[j],
            final(self).spec_faders()[i as int].spec_midi_sender().spec_failed(),
            !final(self).spec_faders()[i as int].spec_midi_sender().spec_alive(),
    {
        let f = &mut self.faders[i];
        let r = f.midi_emit_failed();
        proof {
            assert forall|j: int| 0 <= j < self.spec_faders().len() implies (
            #[trigger] self.spec_faders()[j]).wf() by {
                if j != i {
                    assert(self.spec_faders()[j] == old(self).spec_faders()[j]);
                }
            }
            assert forall|k: int| 0 <= k < self.spec_buttons().len() implies (
            #[trigger] self.spec_buttons()[k]).wf() by {
                assert(self.spec_buttons()[k] == old(self).spec_buttons()[k]);
            }
        }
        r
    }

    /// Dispatches one inbound MIDI frame: each fader is tried in order, then
    /// each button; the first control whose pattern matches handles the
    /// frame and dispatch stops there. A frame no control matches passes —
    /// informational, not an error.
    pub fn receive_midi_message(&mut self, message: MidiMessage, fb: &mut ModelFeedbackHandle) -> (r:
        Result<ReceivingState, ReceivingError>)
        requires
            old(self).wf(),
        ensures
            final(self).wf(),
            final(self).spec_faders().len() == old(self).spec_faders().len(),
            final(self).spec_buttons().len() == old(self).spec_buttons().len(),
            ((forall|i: int|
                0 <= i < old(self).spec_faders().len() ==> spec_fader_decode(
                    (#[trigger] old(self).spec_faders()[i]).spec_config(),
                    message,
                ) is None) && (forall|k: int|
                0 <= k < old(self).spec_buttons().len() ==> spec_button_decode(
                    (#[trigger] old(self).spec_buttons()[k]).spec_config(),
                    message,
                ) is None)) ==> (r == Ok::<ReceivingState, ReceivingError>(ReceivingState::Pass)
                && final(self).spec_faders() == old(self).spec_faders() && final(self).spec_buttons() == old(self).spec_buttons() && spec_handle_eq(*final(fb), *old(fb))),
            forall|i: int|
                (0 <= i < old(self).spec_faders().len() && spec_fader_decode(
                    (#[trigger] old(self).spec_faders()[i]).spec_config(),
                    message,
                ) is Some && (forall|j: int|
                    0 <= j < i ==> spec_fader_decode(
                        (#[trigger] old(self).spec_faders()[j]).spec_config(),
                        message,
                    ) is None)) ==> (final(self).spec_faders() =~= old(self).spec_faders().update(
                    i,
                    old(self).spec_faders()[i].spec_midi_step(message).0,
                ) && final(self).spec_buttons() == old(self).spec_buttons() && r == old(self).spec_faders()[i].spec_midi_step(message).1 && spec_handle_eq(
                    *final(fb),
                    *old(fb),
                )),
            forall|k: int|
                ((forall|i: int|
                    0 <= i < old(self).spec_faders().len() ==> spec_fader_decode(
                        (#[trigger] old(self).spec_faders()[i]).spec_config(),
                        message,
                    ) is None) && 0 <= k < old(self).spec_buttons().len() && spec_button_decode(
                    (#[trigger] old(self).spec_buttons()[k]).spec_config(),
                    message,
                ) is Some && (forall|j: int|
                    0 <= j < k ==> spec_button_decode(
                        (#[trigger] old(self).spec_buttons()[j]).spec_config(),
                        message,
                    ) is None)) ==> (final(self).spec_buttons() =~= old(self).spec_buttons().update(
                    k,
                    old(self).spec_buttons()[k].spec_midi_step(message, old(fb).midi_closed, old(fb).ma_closed).0,
                ) && final(self).spec_faders() == old(self).spec_faders() && r == old(self).spec_buttons()[k].spec_midi_step(message, old(fb).midi_closed, old(fb).ma_closed).3 && final(fb).midi@ =~= old(fb).midi@ + old(self).spec_buttons()[k].spec_midi_step(message, old(fb).midi_closed, old(fb).ma_closed).1 && final(fb).ma@ =~= old(fb).ma@ + old(self).spec_buttons()[k].spec_midi_step(message, old(fb).midi_closed, old(fb).ma_closed).2 && final(fb).ma_closed == old(fb).ma_closed && final(fb).midi_closed == old(fb).midi_closed),
    {
        let mut i: usize = 0;
        while i < self.faders.len()
            invariant
                old(self).wf(),
                0 <= i <= self.faders@.len(),
                self.faders@ == old(self).spec_faders(),
                self.buttons@ == old(self).spec_buttons(),
                spec_handle_eq(*fb, *old(fb)),
                forall|j: int|
                    0 <= j < i ==> spec_fader_decode(
                        (#[trigger] old(self).spec_faders()[j]).spec_config(),
                        message,
                    ) is None,
            decreases self.faders@.len() - i,
        {
            let ghost faders_before = self.faders@;
            let f = &mut self.faders[i];
            let res = f.receive_midi_message(message);
            match res {
                Ok(ReceivingState::Pass) => {
                    proof {
                        assert(self.faders@ =~= faders_before);
                    }
                    i += 1;
                },
                other => {
                    return other;
                },
            }
        }
        let mut k: usize = 0;
        while k < self.buttons.len()
            invariant
                old(self).wf(),
                0 <= k <= self.buttons@.len(),
                self.faders@ == old(self).spec_faders(),
                self.buttons@ == old(self).spec_buttons(),
                spec_handle_eq(*fb, *old(fb)),
                forall|j: int|
                    0 <= j < self.faders@.len() ==> spec_fader_decode(
                        (#[trigger] old(self).spec_faders()[j]).spec_config(),
                        message,
                    ) is None,
                forall|j: int|
                    0 <= j < k ==> spec_button_decode(
                        (#[trigger] old(self).spec_buttons()[j]).spec_config(),
                        message,
                    ) is None,
            decreases self.buttons@.len() - k,
        {
            let ghost buttons_before = self.buttons@;
            let ghost fb_before = *fb;
            let b = &mut self.buttons[k];
            let res = b.receive_midi_message(message, fb);
            match res {
                Ok(ReceivingState::Pass) => {
                    proof {
                        assert(self.buttons@ =~= buttons_before);
                        assert(fb.midi@ =~= fb_before.midi@);
                        assert(fb.ma@ =~= fb_before.ma@);
                    }
                    k += 1;
                },
                other => {
                    return other;
                },
            }
        }
        Ok(ReceivingState::Pass)
    }

    /// Dispatches one console update to every control, faders first; every
    /// control filters by executor (and, for buttons, position) itself.
    /// Success is owed exactly when no control hits a closed sink. The
    /// first closed-sink error stops the dispatch and is returned: controls
    /// up to and including the failing one carry their stepped state,
    /// controls after it are left untouched, and the feedback queue holds
    /// exactly the stepped prefix's emissions.
    pub fn receive_update_from_ma(&mut self, update: Update, fb: &mut ModelFeedbackHandle) -> (r:
        Result<(), ReceivingError>)
        requires
            old(self).wf(),
            update.wf(),
        ensures
            final(self).wf(),
            final(self).spec_faders().len() == old(self).spec_faders().len(),
            final(self).spec_buttons().len() == old(self).spec_buttons().len(),
            final(fb).ma@ == old(fb).ma@,
            final(fb).ma_closed == old(fb).ma_closed,
            final(fb).midi_closed == old(fb).midi_closed,
            r is Ok <==> ((forall|i: int|
                0 <= i < old(self).spec_faders().len() ==> (#[trigger] old(self).spec_faders()[i]).spec_ma_step(update).1 is Ok) && (forall|k: int|
                0 <= k < old(self).spec_buttons().len() ==> (#[trigger] old(self).spec_buttons()[k]).spec_ma_step(update, old(fb).midi_closed).2 is Ok)),
            r is Ok ==> (final(self).spec_faders() =~= old(self).spec_faders().map_values(
                (|f: Fader| f.spec_ma_step(update).0),
            ) && final(self).spec_buttons() =~= old(self).spec_buttons().map_values(
                (|b: Button| b.spec_ma_step(update, old(fb).midi_closed).0),
            ) && final(fb).midi@ =~= old(fb).midi@ + spec_buttons_ma_emissions(
                old(self).spec_buttons(),
                update,
                old(fb).midi_closed,
            )),
            forall|i: int|
                (0 <= i < old(self).spec_faders().len() && (#[trigger] old(
                    self,
                ).spec_faders()[i]).spec_ma_step(update).1 is Err && (forall|j: int|
                    0 <= j < i ==> (#[trigger] old(self).spec_faders()[j]).spec_ma_step(
                        update,
                    ).1 is Ok)) ==> (r == old(self).spec_faders()[i].spec_ma_step(update).1
                    && final(self).spec_faders() =~= Seq::new(
                    old(self).spec_faders().len(),
                    (|j: int|
                        if j <= i {
                            old(self).spec_faders()[j].spec_ma_step(update).0
                        } else {
                            old(self).spec_faders()[j]
                        }),
                ) && final(self).spec_buttons() == old(self).spec_buttons() && final(fb).midi@
                    == old(fb).midi@),
            forall|k: int|
                ((forall|i: int|
                    0 <= i < old(self).spec_faders().len() ==> (#[trigger] old(
                        self,
                    ).spec_faders()[i]).spec_ma_step(update).1 is Ok) && 0 <= k < old(
                    self,
                ).spec_buttons().len() && (#[trigger] old(self).spec_buttons()[k]).spec_ma_step(
                    update,
                    old(fb).midi_closed,
                ).2 is Err && (forall|j: int|
                    0 <= j < k ==> (#[trigger] old(self).spec_buttons()[j]).spec_ma_step(
                        update,
                        old(fb).midi_closed,
                    ).2 is Ok)) ==> (r == old(self).spec_buttons()[k].spec_ma_step(
                    update,
                    old(fb).midi_closed,
                ).2 && final(self).spec_faders() =~= old(self).spec_faders().map_values(
                    (|f: Fader| f.spec_ma_step(update).0),
                ) && final(self).spec_buttons() =~= Seq::new(
                    old(self).spec_buttons().len(),
                    (|j: int|
                        if j <= k {
                            old(self).spec_buttons()[j].spec_ma_step(update, old(fb).midi_closed).0
                        } else {
                            old(self).spec_buttons()[j]
                        }),
                ) && final(fb).midi@ =~= old(fb).midi@ + spec_buttons_ma_emissions(
                    old(self).spec_buttons().take(k + 1),
                    update,
                    old(fb).midi_closed,
                )),
    {
        let mut i: usize = 0;
        while i < self.faders.len()
            invariant
                old(self).wf(),
                update.wf(),
                0 <= i <= self.faders@.len(),
                self.faders@.len() == old(self).spec_faders().len(),
                self.buttons@ == old(self).spec_buttons(),
                spec_handle_eq(*fb, *old(fb)),
                forall|j: int| 0 <= j < self.faders@.len() ==> (#[trigger] self.faders@[j]).wf(),
                forall|j: int|
                    0 <= j < i ==> (#[trigger] old(self).spec_faders()[j]).spec_ma_step(
                        update,
                    ).1 is Ok && self.faders@[j] == old(self).spec_faders()[j].spec_ma_step(
                        update,
                    ).0,
                forall|j: int|
                    i <= j < self.faders@.len() ==> #[trigger] self.faders@[j] == old(self).spec_faders()[j],
            decreases self.faders@.len() - i,
        {
            let f = &mut self.faders[i];
            let res = f.receive_update_from_ma(update);
            if let Err(e) = res {
                proof {
                    assert(self.faders@ =~= Seq::new(
                        old(self).spec_faders().len(),
                        (|j: int|
                            if j <= i as int {
                                old(self).spec_faders()[j].spec_ma_step(update).0
                            } else {
                                old(self).spec_faders()[j]
                            }),
                    ));
                }
                return Err(e);
            }
            i += 1;
        }
        let mut k: usize = 0;
        while k < self.buttons.len()
            invariant
                old(self).wf(),
                update.wf(),
                0 <= k <= self.buttons@.len(),
                self.buttons@.len() == old(self).spec_buttons().len(),
                self.faders@ =~= old(self).spec_faders().map_values(
                    (|f: Fader| f.spec_ma_step(update).0),
                ),
                forall|j: int|
                    0 <= j < old(self).spec_faders().len() ==> (#[trigger] old(self).spec_faders()[j]).spec_ma_step(update).1 is Ok,
                forall|j: int| 0 <= j < self.faders@.len() ==> (#[trigger] self.faders@[j]).wf(),
                forall|j: int| 0 <= j < self.buttons@.len() ==> (#[trigger] self.buttons@[j]).wf(),
                fb.ma@ == old(fb).ma@,
                fb.ma_closed == old(fb).ma_closed,
                fb.midi_closed == old(fb).midi_closed,
                fb.midi@ =~= old(fb).midi@ + spec_buttons_ma_emissions(
                    old(self).spec_buttons().take(k as int),
                    update,
                    old(fb).midi_closed,
                ),
                forall|j: int|
                    0 <= j < k ==> (#[trigger] old(self).spec_buttons()[j]).spec_ma_step(
                        update,
                        old(fb).midi_closed,
                    ).2 is Ok && self.buttons@[j] == old(self).spec_buttons()[j].spec_ma_step(
                        update,
                        old(fb).midi_closed,
                    ).0,
                forall|j: int|
                    k <= j < self.buttons@.len() ==> #[trigger] self.buttons@[j] == old(self).spec_buttons()[j],
            decreases self.buttons@.len() - k,
        {
            let ghost prefix = old(self).spec_buttons().take(k as int);
            let b = &mut self.buttons[k];
            let res = b.receive_update_from_ma(update, fb);
            proof {
                assert(old(self).spec_buttons().take(k as int + 1).drop_last() =~= prefix);
                assert(old(self).spec_buttons().take(k as int + 1).last() == old(self).spec_buttons()[k as int]);
            }
            if let Err(e) = res {
                proof {
                    assert(self.buttons@ =~= Seq::new(
                        old(self).spec_buttons().len(),
                        (|j: int|
                            if j <= k as int {
                                old(self).spec_buttons()[j].spec_ma_step(
                                    update,
                                    old(fb).midi_closed,
                                ).0
                            } else {
                                old(self).spec_buttons()[j]
                            }),
                    ));
                    assert(fb.midi@ =~= old(fb).midi@ + spec_buttons_ma_emissions(
                        old(self).spec_buttons().take(k as int + 1),
                        update,
                        old(fb).midi_closed,
                    ));
                }
                return Err(e);
            }
            k += 1;
        }
        proof {
            assert(old(self).spec_buttons().take(self.buttons@.len() as int) =~= old(self).spec_buttons());
            assert(self.buttons@ =~= old(self).spec_buttons().map_values(
                (|b: Button| b.spec_ma_step(update, old(fb).midi_closed).0),
            ));
        }
        Ok(())
    }
}

} // verus!
