use vstd::prelude::*;

verus! {

/// The full-scale volume: a volume of this value plays the wave unscaled.
pub const FULL_VOLUME: u16 = 1000;

/// The sample level of an active flag, a wave sign and a volume, in thousandths of
/// full scale.
pub open spec fn level(active: bool, wave: int, volume: u16) -> int {
    if active {
        wave * volume
    } else {
        0
    }
}

/// The click's sample level in thousandths of full scale. `wave` is the sign
/// of the tone's waveform at this sample (-1, 0 or 1). A clear flag gives
/// silence whatever the phase; a set one scales the wave by the volume,
/// after the waveform is formed.
pub fn sample_level(active: bool, wave: i8, volume: u16) -> (r: i32)
    requires
        -1 <= wave <= 1,
    ensures
        r == level(active, wave as int, volume),
{
    if !active {
        0
    } else if wave == 0 {
        assert(wave as int * volume as int == 0);
        0
    } else if wave > 0 {
        assert(wave as int * volume as int == volume as int) by {
            assert(wave == 1);
        }
        volume as i32
    } else {
        assert(wave as int * volume as int == -(volume as int)) by (nonlinear_arith)
            requires
                wave == -1,
        ;
        -(volume as i32)
    }
}

/// Advances the sample clock by one sample, wrapping at the sample rate so
/// that the phase never grows without bound.
pub fn advance_clock(clock: u32, sample_rate: u32) -> (r: u32)
    requires
        sample_rate > 0,
    ensures
        r == (clock + 1) % (sample_rate as int),
        r < sample_rate,
{
    ((clock as u64 + 1) % sample_rate as u64) as u32
}

} // verus!
