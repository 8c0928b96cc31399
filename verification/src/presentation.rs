//! What a renderer needs to know of a level before it draws: which stretch of
//! the colour scale the level falls in, and where the activity light stands
//! in its cycle. The blending of colours itself is arithmetic on
//! single-precision numbers and is left to the renderer.

use crate::level::{is_less_than, less_than, in_unit_range};
use vstd::prelude::*;

verus! {

/// The pattern of 0.5, where the scale leaves the pure "ok" hue.
pub const WARN_ONSET_BITS: u32 = 0x3f00_0000;

/// The pattern of 0.75, where the scale reaches the "warn" hue and turns
/// toward "alert".
pub const ALERT_ONSET_BITS: u32 = 0x3f40_0000;

/// The length of one cycle of the activity light, in milliseconds.
pub const PULSE_PERIOD_MILLIS: u64 = 1000;

/// A stretch of the colour scale.
#[derive(Clone, Copy, Debug, PartialEq, Eq)]
pub enum HueBand {
    /// Below 0.5: the pure "ok" hue.
    PureOk,
    /// From 0.5 up to 0.75: from "ok" to "warn", by `(level - 0.5) / 0.25`.
    OkToWarn,
    /// From 0.75 on: from "warn" toward "alert", by `(level - 0.75) / 0.25`.
    WarnToAlert,
}

/// The place of a band along the scale.
pub open spec fn band_rank(band: HueBand) -> nat {
    match band {
        HueBand::PureOk => 0,
        HueBand::OkToWarn => 1,
        HueBand::WarnToAlert => 2,
    }
}

/// The band of the level with the given pattern. Whatever is not below 0.75
/// belongs to the last band, a pattern that is not a number too.
pub open spec fn band_of(level_bits: u32) -> HueBand {
    if less_than(level_bits, WARN_ONSET_BITS) {
        HueBand::PureOk
    } else if less_than(level_bits, ALERT_ONSET_BITS) {
        HueBand::OkToWarn
    } else {
        HueBand::WarnToAlert
    }
}

/// Where the activity light stands in its cycle at the given time.
pub open spec fn phase_at(now_millis: u64) -> int {
    now_millis as int % PULSE_PERIOD_MILLIS as int
}

/// The band of the colour scale that the level falls in.
pub fn hue_band(level_bits: u32) -> (band: HueBand)
    ensures
        band == band_of(level_bits),
{
    if is_less_than(level_bits, WARN_ONSET_BITS) {
        HueBand::PureOk
    } else if is_less_than(level_bits, ALERT_ONSET_BITS) {
        HueBand::OkToWarn
    } else {
        HueBand::WarnToAlert
    }
}

/// The milliseconds gone since the activity light's cycle last began. The
/// light's intensity depends on the time through this phase alone, and not on
/// the level.
pub fn pulse_phase(now_millis: u64) -> (phase: u64)
    ensures
        phase == phase_at(now_millis),
        phase < PULSE_PERIOD_MILLIS,
{
    now_millis % PULSE_PERIOD_MILLIS
}

/// Among levels the bands follow the patterns: each band is one interval of
/// patterns, and its lower end is the onset of its blend.
pub proof fn lemma_bands_of_levels(level_bits: u32)
    requires
        in_unit_range(level_bits),
    ensures
        band_of(level_bits) is PureOk <==> level_bits < WARN_ONSET_BITS,
        band_of(level_bits) is OkToWarn <==> WARN_ONSET_BITS <= level_bits < ALERT_ONSET_BITS,
        band_of(level_bits) is WarnToAlert <==> ALERT_ONSET_BITS <= level_bits,
{
}

/// A louder level never falls in an earlier band.
pub proof fn lemma_bands_rise_with_level(quieter: u32, louder: u32)
    requires
        less_than(quieter, louder),
    ensures
        band_rank(band_of(quieter)) <= band_rank(band_of(louder)),
{
}

/// The activity light repeats with its period.
pub proof fn lemma_pulse_is_periodic(now_millis: u64)
    requires
        now_millis + PULSE_PERIOD_MILLIS <= u64::MAX,
    ensures
        phase_at((now_millis + PULSE_PERIOD_MILLIS) as u64) == phase_at(now_millis),
{
}

} // verus!
