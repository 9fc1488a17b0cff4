//! Configuration records for the bridge: the console endpoint and
//! credentials, the poll cadence, and the per-control MIDI bindings of each
//! surface. The records hold plain values only; reading and writing the
//! configuration file is done outside the verified core.

use vstd::prelude::*;

verus! {

/// Top-level configuration.
pub struct Config {
    /// Console host, optionally with a port; the WebSocket URL is formed by
    /// prepending `ws://`.
    pub console_ip: String,
    pub console_username: String,
    /// Plaintext password; it is MD5-hashed to lowercase hex before login.
    pub console_password: String,
    pub midi_devices: Vec<MidiDeviceConfig>,
    /// Milliseconds between fader polls.
    pub ma_poll_interval: u64,
}

impl Config {
    /// The defaults used when no configuration file can be read.
    pub fn default() -> (c: Config)
        ensures
            c.console_ip@ == "192.168.178.71"@,
            c.console_username@ == "remote"@,
            c.console_password@ == "remote"@,
            c.midi_devices@ =~= Seq::<MidiDeviceConfig>::empty(),
            c.ma_poll_interval == 10,
    {
        Config {
            console_ip: "192.168.178.71".to_owned(),
            console_username: "remote".to_owned(),
            console_password: "remote".to_owned(),
            midi_devices: Vec::new(),
            ma_poll_interval: 10,
        }
    }
}

/// One physical surface: its two port names and its control layout.
pub struct MidiDeviceConfig {
    pub midi_in_port_name: String,
    pub midi_out_port_name: String,
    pub model: DeviceModelConfig,
}

/// The controls of one surface.
pub struct DeviceModelConfig {
    pub motor_faders: Vec<MotorFaderConfig>,
    pub rotary_encoders: Vec<RotaryEncoderConfig>,
    pub buttons: Vec<ButtonConfig>,
}

/// Rotary encoders are a recognized control kind whose MIDI protocol is not
/// yet defined; their configuration carries no fields.
#[derive(Clone, Copy, PartialEq, Eq, Structural, Debug)]
pub struct RotaryEncoderConfig {}

/// Which of an executor's three buttons a button control drives.
#[derive(Clone, Copy, PartialEq, Eq, Structural, Debug)]
pub enum ButtonPosition {
    Top,
    Mid,
    Bottom,
}

/// MIDI binding of one button control.
#[derive(Clone, Copy, PartialEq, Eq, Structural, Debug)]
pub struct ButtonConfig {
    /// Status byte of the inbound match key.
    pub input_midi_byte_0: u8,
    /// First data byte of the inbound match key.
    pub input_midi_byte_1: u8,
    /// Status byte of outbound frames.
    pub output_midi_byte_0: u8,
    /// First data byte of outbound frames.
    pub output_midi_byte_1: u8,
    /// Value byte meaning "released"; defaults to 0.
    pub low_value: Option<u8>,
    /// Value byte meaning "pressed"; defaults to 127.
    pub high_value: Option<u8>,
    /// Whether inbound input is echoed back to the surface; defaults to true.
    pub input_feedback: Option<bool>,
    /// The console executor this control binds to.
    pub ma_executor_index: u8,
    pub position: ButtonPosition,
}

/// MIDI binding of one motorized fader.
#[derive(Clone, Copy, PartialEq, Eq, Structural, Debug)]
pub struct MotorFaderConfig {
    /// Status byte of the inbound match key.
    pub input_midi_byte_0: u8,
    /// First data byte of the inbound match key.
    pub input_midi_byte_1: u8,
    /// Status byte of outbound frames.
    pub output_midi_byte_0: u8,
    /// First data byte of outbound frames.
    pub output_midi_byte_1: u8,
    /// Lower end of the value window used to normalize; defaults to 0.
    pub min_value: Option<u8>,
    /// Upper end of the value window used to normalize; defaults to 127.
    pub max_value: Option<u8>,
    /// Whether inbound input is echoed back to the surface; defaults to true.
    pub input_feedback: Option<bool>,
    /// The console executor this control binds to.
    pub ma_executor_index: u8,
}

impl MotorFaderConfig {
    /// The effective lower end of the value window.
    pub open spec fn spec_min(self) -> u8 {
        match self.min_value {
            Some(v) => v,
            None => 0,
        }
    }

    /// The effective upper end of the value window.
    pub open spec fn spec_max(self) -> u8 {
        match self.max_value {
            Some(v) => v,
            None => 127,
        }
    }

    /// The window's upper end is the denominator of every normalized value,
    /// so a usable fader configuration must keep it positive.
    pub open spec fn wf(self) -> bool {
        self.spec_max() >= 1
    }

    /// Whether inbound input is echoed back to the surface.
    pub open spec fn spec_input_feedback(self) -> bool {
        match self.input_feedback {
            Some(b) => b,
            None => true,
        }
    }

    /// Whether inbound input is echoed back to the surface.
    pub fn effective_input_feedback(&self) -> (r: bool)
        ensures
            r == self.spec_input_feedback(),
    {
        match self.input_feedback {
            Some(b) => b,
            None => true,
        }
    }

    /// The effective lower end of the value window.
    pub fn effective_min(&self) -> (r: u8)
        ensures
            r == self.spec_min(),
    {
        match self.min_value {
            Some(v) => v,
            None => 0,
        }
    }

    /// The effective upper end of the value window.
    pub fn effective_max(&self) -> (r: u8)
        ensures
            r == self.spec_max(),
    {
        match self.max_value {
            Some(v) => v,
            None => 127,
        }
    }
}

impl ButtonConfig {
    /// The effective "released" value byte.
    pub open spec fn spec_low(self) -> u8 {
        match self.low_value {
            Some(v) => v,
            None => 0,
        }
    }

    /// The effective "pressed" value byte.
    pub open spec fn spec_high(self) -> u8 {
        match self.high_value {
            Some(v) => v,
            None => 127,
        }
    }

    /// The effective "released" value byte.
    pub fn effective_low(&self) -> (r: u8)
        ensures
            r == self.spec_low(),
    {
        match self.low_value {
            Some(v) => v,
            None => 0,
        }
    }

    /// The effective "pressed" value byte.
    pub fn effective_high(&self) -> (r: u8)
        ensures
            r == self.spec_high(),
    {
        match self.high_value {
            Some(v) => v,
            None => 127,
        }
    }
}

} // verus!
