//! A bidirectional bridge between MIDI control surfaces and a lighting
//! console's session-based JSON remote-control protocol.
//!
//! The crate holds the verified core of the bridge: MIDI pattern
//! encoders/decoders, value normalization, the latest-wins update coalescer,
//! the per-control state machines, the device model that routes frames, the
//! console protocol's request serializers and tolerant response parsers, and
//! the session/login client state machine. The asynchronous plumbing (MIDI
//! ports, the WebSocket, timers) lives outside and drives these state
//! machines through their public methods.

pub mod button;
pub mod components;
pub mod config;
pub mod device_model;
pub mod fader;
pub mod json;
pub mod ma_interface;
pub mod midi_message;
pub mod midi_pattern;
pub mod normalized;
pub mod objects;
pub mod periodic_update_sender;
pub mod requests;
pub mod responses;
pub mod rotary_encoder;
