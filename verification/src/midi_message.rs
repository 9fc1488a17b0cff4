//! The one MIDI frame shape the bridge speaks: exactly three bytes
//! `[status, data1, data2]`.

use vstd::prelude::*;

verus! {

/// A three-byte MIDI message. `data[0]` is the status byte, `data[1]` the
/// first data byte (the match key together with the status), `data[2]` the
/// carried value.
#[derive(Clone, Copy, PartialEq, Eq, Debug)]
pub struct MidiMessage {
    pub data: [u8; 3],
}

/// The error returned when a raw MIDI payload does not hold exactly three
/// bytes. Such payloads are dropped by the transport.
#[derive(Clone, Copy, PartialEq, Eq, Structural, Debug)]
pub struct MidiMessageLengthError;

impl MidiMessage {
    /// Builds a message from a raw port payload. Succeeds exactly on
    /// three-byte payloads; anything longer or shorter is refused.
    pub fn from_slice(slice: &[u8]) -> (r: Result<MidiMessage, MidiMessageLengthError>)
        ensures
            slice@.len() == 3 ==> (r matches Ok(m) && m.data@ =~= slice@),
            slice@.len() != 3 ==> r is Err,
    {
        if slice.len() == 3 {
            let data: [u8; 3] = [slice[0], slice[1], slice[2]];
            assert(data@ =~= slice@);
            Ok(MidiMessage { data })
        } else {
            Err(MidiMessageLengthError)
        }
    }
}

} // verus!
