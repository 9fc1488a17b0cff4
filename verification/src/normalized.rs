//! Normalized fader values and the window mapping between seven-bit MIDI
//! levels and the console's `[0, 1]` scale.
//!
//! The console wire carries a normalized level; the verified core represents
//! it exactly as a fraction `num / den` instead of a machine float, so the
//! window arithmetic and its rounding are stated and proved over integers.
//! The unverified rim converts between this fraction and the wire float.

use vstd::prelude::*;

use crate::config::MotorFaderConfig;

verus! {

/// A non-negative level `num / den`, normally in `[0, 1]`. The denominator
/// must be positive for the fraction to denote a value.
#[derive(Clone, Copy, PartialEq, Eq, Structural, Debug)]
pub struct Normalized {
    pub num: u32,
    pub den: u32,
}

impl Normalized {
    /// A fraction denotes a value only when its denominator is positive.
    pub open spec fn wf(self) -> bool {
        self.den >= 1
    }

    /// `self <= other` as rationals.
    pub open spec fn spec_le(self, other: Normalized) -> bool {
        self.num * other.den <= other.num * self.den
    }

    /// `self == other` as rationals.
    pub open spec fn spec_eq_value(self, other: Normalized) -> bool {
        self.num * other.den == other.num * self.den
    }

    pub fn new(num: u32, den: u32) -> (r: Normalized)
        requires
            den >= 1,
        ensures
            r.num == num,
            r.den == den,
            r.wf(),
    {
        Normalized { num, den }
    }
}

/// The numerator of the normalized value of MIDI level `v` in the window of
/// `config`: the distance above the window's lower end, saturated at zero
/// from below.
pub open spec fn spec_fader_to_norm_num(config: MotorFaderConfig, v: u8) -> int {
    if v >= config.spec_min() {
        v - config.spec_min()
    } else {
        0
    }
}

/// The normalized value of MIDI level `v` in the window of `config`, as a
/// fraction over the window's upper end.
pub open spec fn spec_fader_to_norm(config: MotorFaderConfig, v: u8) -> Normalized {
    Normalized { num: spec_fader_to_norm_num(config, v) as u32, den: config.spec_max() as u32 }
}

/// The MIDI level of a normalized value `num / den` in the window of
/// `config`: `round(value * max) + min`, saturated at 127 from above. The
/// rounding is round-half-up, written as a floor of the doubled fraction.
pub open spec fn spec_norm_to_fader(config: MotorFaderConfig, num: int, den: int) -> int {
    let rounded = (2 * num * config.spec_max() + den) / (2 * den);
    let shifted = rounded + config.spec_min();
    if shifted > 127 {
        127
    } else {
        shifted
    }
}

/// Maps a MIDI level to the console's normalized scale:
/// `(v - min) / max`, saturating to 0 when `v` lies below the window.
pub fn fader_value_to_ma_value(config: &MotorFaderConfig, v: u8) -> (r: Normalized)
    requires
        config.wf(),
    ensures
        r.wf(),
        r.num == spec_fader_to_norm_num(*config, v),
        r.den == config.spec_max(),
{
    let min = config.effective_min();
    let num: u32 = if v >= min {
        (v - min) as u32
    } else {
        0
    };
    Normalized { num, den: config.effective_max() as u32 }
}

/// Maps a normalized console value back to a MIDI level:
/// `round(value * max) + min`, saturating to 127 from above.
pub fn ma_value_to_fader_value(config: &MotorFaderConfig, value: Normalized) -> (r: u8)
    requires
        config.wf(),
        value.wf(),
    ensures
        r == spec_norm_to_fader(*config, value.num as int, value.den as int),
{
    let max = config.effective_max() as u64;
    let den = value.den as u64;
    let num = value.num as u64;
    proof {
        assert(num * max <= 0xffff_ffff * 255) by (nonlinear_arith)
            requires
                num <= 0xffff_ffff,
                max <= 255,
        ;
    }
    let product: u64 = num * max;
    let rounded: u64 = (2 * product + den) / (2 * den);
    let shifted: u64 = rounded + config.effective_min() as u64;
    proof {
        assert(2 * (value.num as int) * (config.spec_max() as int) == 2 * (product as int))
            by (nonlinear_arith)
            requires
                product == value.num as int * (config.spec_max() as int),
        ;
    }
    if shifted > 127 {
        127
    } else {
        shifted as u8
    }
}

/// Normalization is monotone: within one window, a higher MIDI level never
/// maps to a lower normalized value.
pub proof fn lemma_fader_to_norm_monotonic(config: MotorFaderConfig, v1: u8, v2: u8)
    requires
        config.wf(),
        v1 <= v2,
    ensures
        spec_fader_to_norm(config, v1).spec_le(spec_fader_to_norm(config, v2)),
{
    let n1 = spec_fader_to_norm_num(config, v1);
    let n2 = spec_fader_to_norm_num(config, v2);
    let d = config.spec_max() as int;
    assert(n1 <= n2);
    assert(n1 * d <= n2 * d) by (nonlinear_arith)
        requires
            n1 <= n2,
            d >= 1,
    ;
}

/// Mapping a seven-bit MIDI level at or above the window's lower end to the
/// normalized scale and back yields the level again: the two window maps,
/// though not inverses on the whole wire range, round-trip exactly on the
/// levels a fader can report. (A level below the window saturates to the
/// lower end instead.)
pub proof fn lemma_norm_round_trip(config: MotorFaderConfig, v: u8)
    requires
        config.wf(),
        config.spec_min() <= v <= 127,
    ensures
        spec_norm_to_fader(
            config,
            spec_fader_to_norm_num(config, v),
            config.spec_max() as int,
        ) == v,
{
    let k = v - config.spec_min();
    let m = config.spec_max() as int;
    assert((2 * k * m + m) / (2 * m) == k) by (nonlinear_arith)
        requires
            m >= 1,
            k >= 0,
    ;
}

} // verus!
