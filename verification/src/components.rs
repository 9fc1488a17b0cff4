//! Shared pieces of the device model: dispatch outcomes, component errors,
//! and the feedback queues through which controls hand frames and updates to
//! the transport.

use vstd::prelude::*;

use crate::ma_interface::Update;
use crate::midi_message::MidiMessage;

verus! {

/// What a control did with an inbound MIDI frame.
#[derive(Clone, Copy, PartialEq, Eq, Structural, Debug)]
pub enum ReceivingState {
    /// The frame matched this control's input key and was handled; no later
    /// control sees it.
    Consumed,
    /// The frame did not match; the next control is tried.
    Pass,
}

/// Why handling an inbound frame or update failed: one of the two outbound
/// sinks has been closed.
#[derive(Clone, Copy, PartialEq, Eq, Structural, Debug)]
pub enum ReceivingError {
    /// The update sink toward the console is closed.
    MaError,
    /// The MIDI sink toward the surface is closed.
    MidiError,
}

/// Why building a control failed.
#[derive(Clone, Copy, PartialEq, Eq, Structural, Debug)]
pub enum SetupError {
    /// An outbound sink was already closed at construction.
    ChannelClosed,
    /// The configured value window is unusable (its upper end is zero).
    InvalidConfig,
}

/// The device model's two outbound queues, in submission order, together
/// with the state of the real sinks behind them. The transport drains the
/// queues and records a closed sink in the flags; controls consult the flags
/// to surface channel-closed errors at the control whose value was queued.
pub struct ModelFeedbackHandle {
    /// Updates queued toward the console client.
    pub ma: Vec<Update>,
    /// Frames queued toward the surface.
    pub midi: Vec<MidiMessage>,
    /// Whether the console update sink is closed.
    pub ma_closed: bool,
    /// Whether the MIDI sink is closed.
    pub midi_closed: bool,
}

/// Whether two feedback-queue states hold the same queues and flags.
pub open spec fn spec_handle_eq(a: ModelFeedbackHandle, b: ModelFeedbackHandle) -> bool {
    &&& a.ma@ == b.ma@
    &&& a.midi@ == b.midi@
    &&& a.ma_closed == b.ma_closed
    &&& a.midi_closed == b.midi_closed
}

impl ModelFeedbackHandle {
    /// Fresh empty queues over open sinks.
    pub fn new() -> (r: ModelFeedbackHandle)
        ensures
            r.ma@ =~= Seq::<Update>::empty(),
            r.midi@ =~= Seq::<MidiMessage>::empty(),
            !r.ma_closed,
            !r.midi_closed,
    {
        ModelFeedbackHandle { ma: Vec::new(), midi: Vec::new(), ma_closed: false, midi_closed: false }
    }
}

} // verus!
