use vstd::arithmetic::div_mod::lemma_div_of0;
use vstd::arithmetic::div_mod::lemma_div_pos_is_pos;
use vstd::arithmetic::div_mod::lemma_fundamental_div_mod;
use vstd::arithmetic::div_mod::lemma_mod_bound;
use vstd::arithmetic::div_mod::lemma_small_mod;
use vstd::prelude::*;

use crate::error::SongError;
use crate::song_settings::SongSettings;

verus! {

/// How many whole beats have elapsed at tick `ticks`, under a beat resolution
/// of `ppb` pulses per beat.
pub open spec fn spec_total_beats(ticks: int, ppb: int) -> int {
    ticks / ppb
}

/// The 0-indexed bar containing tick `ticks`, with `numerator` beats per bar.
pub open spec fn spec_bar(ticks: int, ppb: int, numerator: int) -> int {
    spec_total_beats(ticks, ppb) / numerator
}

/// The 0-indexed beat within its bar containing tick `ticks`.
pub open spec fn spec_beat(ticks: int, ppb: int, numerator: int) -> int {
    spec_total_beats(ticks, ppb) % numerator
}

/// How many ticks `ticks` lies past the start of its beat. Divided by `ppb`
/// this is the fractional position within the beat, in `[0, 1)`.
pub open spec fn spec_offset_ticks(ticks: int, ppb: int) -> int {
    ticks % ppb
}

/// Whether a configuration admits tick-to-coordinate conversion: the time
/// signature passes validation, and neither the numerator nor the derived
/// beat resolution is zero.
pub open spec fn spec_supports_conversion(settings: SongSettings) -> bool {
    &&& settings.spec_valid_time_signature()
    &&& settings.spec_beat_resolution() > 0
    &&& settings.spec_time_signature_numerator() > 0
}

/// A musical coordinate, always recomputed from a tick count and the current
/// configuration, never stored.
///
/// `bar` and `beat` are 0-indexed. The position within the beat is the exact
/// fraction `offset_ticks / pulses_per_beat`, which lies in `[0, 1)`; callers
/// that want a floating-point note offset divide the two fields themselves.
#[derive(Clone, Copy, Debug, PartialEq, Eq, Structural)]
pub struct BarsAndBeats {
    pub bar: u64,
    pub beat: u64,
    pub offset_ticks: u64,
    pub pulses_per_beat: u64,
}

impl BarsAndBeats {
    /// Whether this value is the coordinate of tick `ticks` under beat
    /// resolution `ppb` and `numerator` beats per bar.
    pub open spec fn is_coordinates_of(self, ticks: int, ppb: int, numerator: int) -> bool {
        &&& self.bar == spec_bar(ticks, ppb, numerator)
        &&& self.beat == spec_beat(ticks, ppb, numerator)
        &&& self.offset_ticks == spec_offset_ticks(ticks, ppb)
        &&& self.pulses_per_beat == ppb
    }
}

/// For every tick position and every usable configuration, the coordinate is
/// an exact decomposition of the tick count:
/// `bar * numerator * ppb + beat * ppb + offset == ticks`, with
/// `0 <= beat < numerator` and `0 <= offset < ppb` (so the fractional note
/// offset lies in `[0, 1)`).
pub proof fn lemma_coordinates_reconstruct(ticks: int, ppb: int, numerator: int)
    requires
        ticks >= 0,
        ppb > 0,
        numerator > 0,
    ensures
        spec_bar(ticks, ppb, numerator) * numerator * ppb + spec_beat(ticks, ppb, numerator) * ppb
            + spec_offset_ticks(ticks, ppb) == ticks,
        0 <= spec_bar(ticks, ppb, numerator),
        0 <= spec_beat(ticks, ppb, numerator) < numerator,
        0 <= spec_offset_ticks(ticks, ppb) < ppb,
{
    let beats = spec_total_beats(ticks, ppb);
    lemma_fundamental_div_mod(ticks, ppb);
    lemma_mod_bound(ticks, ppb);
    lemma_div_pos_is_pos(ticks, ppb);
    lemma_fundamental_div_mod(beats, numerator);
    lemma_mod_bound(beats, numerator);
    lemma_div_pos_is_pos(beats, numerator);
    assert(spec_bar(ticks, ppb, numerator) * numerator * ppb + spec_beat(ticks, ppb, numerator)
        * ppb == beats * ppb) by (nonlinear_arith)
        requires
            beats == numerator * spec_bar(ticks, ppb, numerator) + spec_beat(
                ticks,
                ppb,
                numerator,
            ),
    ;
    assert(beats * ppb + spec_offset_ticks(ticks, ppb) == ticks) by (nonlinear_arith)
        requires
            ticks == ppb * beats + spec_offset_ticks(ticks, ppb),
    ;
}

/// Tick `0` always sits at the very start: bar 0, beat 0, no offset.
pub proof fn lemma_coordinates_at_zero(ppb: int, numerator: int)
    requires
        ppb > 0,
        numerator > 0,
    ensures
        spec_bar(0, ppb, numerator) == 0,
        spec_beat(0, ppb, numerator) == 0,
        spec_offset_ticks(0, ppb) == 0,
{
    lemma_small_mod(0, ppb as nat);
    lemma_small_mod(0, numerator as nat);
    lemma_div_of0(ppb);
    lemma_div_of0(numerator);
}

/// A position on the timeline: an absolute start tick and, for a span, an
/// end tick. Immutable once constructed.
pub struct SongPosition {
    ticks_on: u64,
    ticks_off: Option<u64>,
}

/// The capability of occupying a point in the timeline. Generic timeline
/// code reads an entity's position through this trait instead of knowing the
/// concrete entity type.
pub trait Positionable {
    /// The timed position this entity occupies.
    spec fn spec_position(&self) -> SongPosition;

    /// Read-only access to the entity's own timed position.
    fn get_position(&self) -> (r: &SongPosition)
        ensures
            *r == self.spec_position(),
    ;
}

impl SongPosition {
    pub closed spec fn spec_ticks_on(&self) -> u64 {
        self.ticks_on
    }

    pub closed spec fn spec_ticks_off(&self) -> Option<u64> {
        self.ticks_off
    }

    /// A position for a single instant: no end tick.
    pub fn new(ticks: u64) -> (r: Self)
        ensures
            r.spec_ticks_on() == ticks,
            r.spec_ticks_off() is None,
    {
        SongPosition { ticks_on: ticks, ticks_off: None }
    }

    /// A position for a span from `ticks_on` to `ticks_off`.
    pub fn from(ticks_on: u64, ticks_off: u64) -> (r: Self)
        ensures
            r.spec_ticks_on() == ticks_on,
            r.spec_ticks_off() == Some(ticks_off),
    {
        SongPosition { ticks_on, ticks_off: Some(ticks_off) }
    }

    /// The duration of the span in ticks: `0` for a single instant, otherwise
    /// the distance from the start tick to the end tick. An end tick before
    /// the start tick is a usage error and is reported as `InvalidSpan`,
    /// never returned as a wrapped value.
    pub fn get_length(&self) -> (r: Result<u64, SongError>)
        ensures
            match r {
                Ok(length) => match self.spec_ticks_off() {
                    None => length == 0,
                    Some(off) => self.spec_ticks_on() <= off && length == off - self.spec_ticks_on(),
                },
                Err(e) => {
                    &&& e == SongError::InvalidSpan
                    &&& self.spec_ticks_off() is Some
                    &&& self.spec_ticks_off()->0 < self.spec_ticks_on()
                },
            },
    {
        match self.ticks_off {
            None => Ok(0),
            Some(off) => {
                if off < self.ticks_on {
                    Err(SongError::InvalidSpan)
                } else {
                    Ok(off - self.ticks_on)
                }
            },
        }
    }

    /// The musical coordinates of the start tick.
    pub fn get_as_bars_and_beats_on(&self, settings: &SongSettings) -> (r: Result<
        BarsAndBeats,
        SongError,
    >)
        requires
            settings.spec_valid_time_signature() ==> settings.spec_beat_resolution() <= u64::MAX,
        ensures
            r is Ok <==> spec_supports_conversion(*settings),
            r is Ok ==> r->Ok_0.is_coordinates_of(
                self.spec_ticks_on() as int,
                settings.spec_beat_resolution(),
                settings.spec_time_signature_numerator() as int,
            ),
            r is Err ==> r->Err_0 == SongError::InvalidTimeSignature,
    {
        self.get_as_bars_and_beats(self.ticks_on, settings)
    }

    /// The musical coordinates of the end tick, or `None` for a position that
    /// is a single instant. Validation of the configuration happens only when
    /// there is an end tick to convert.
    pub fn get_as_bars_and_beats_off(&self, settings: &SongSettings) -> (r: Result<
        Option<BarsAndBeats>,
        SongError,
    >)
        requires
            settings.spec_valid_time_signature() ==> settings.spec_beat_resolution() <= u64::MAX,
        ensures
            self.spec_ticks_off() is None ==> r is Ok && r->Ok_0 is None,
            self.spec_ticks_off() is Some ==> {
                &&& (r is Ok <==> spec_supports_conversion(*settings))
                &&& r is Ok ==> r->Ok_0 is Some && r->Ok_0->0.is_coordinates_of(
                    self.spec_ticks_off()->0 as int,
                    settings.spec_beat_resolution(),
                    settings.spec_time_signature_numerator() as int,
                )
                &&& r is Err ==> r->Err_0 == SongError::InvalidTimeSignature
            },
    {
        match self.ticks_off {
            Some(off) => {
                match self.get_as_bars_and_beats(off, settings) {
                    Ok(coordinates) => Ok(Some(coordinates)),
                    Err(e) => Err(e),
                }
            },
            None => Ok(None),
        }
    }

    /// Convert an absolute tick count into `(bar, beat, offset)` coordinates
    /// under the given configuration.
    fn get_as_bars_and_beats(&self, ticks: u64, settings: &SongSettings) -> (r: Result<
        BarsAndBeats,
        SongError,
    >)
        requires
            settings.spec_valid_time_signature() ==> settings.spec_beat_resolution() <= u64::MAX,
        ensures
            r is Ok <==> spec_supports_conversion(*settings),
            r is Ok ==> r->Ok_0.is_coordinates_of(
                ticks as int,
                settings.spec_beat_resolution(),
                settings.spec_time_signature_numerator() as int,
            ),
            r is Err ==> r->Err_0 == SongError::InvalidTimeSignature,
    {
        let ppb = match settings.get_pulses_per_beat() {
            Ok(p) => p,
            Err(e) => {
                return Err(e);
            },
        };
        if ppb == 0 {
            return Err(SongError::InvalidTimeSignature);
        }
        let numerator = settings.get_time_signature_numerator();
        if numerator == 0 {
            return Err(SongError::InvalidTimeSignature);
        }

        let beats = ticks / ppb;
        let bar: u64 = beats / numerator;
        let beat: u64 = beats % numerator;

        proof {
            let t = ticks as int;
            let b = ppb as int;
            let n = numerator as int;
            lemma_coordinates_reconstruct(t, b, n);
            assert(bar * n >= 0 && bar * n <= bar * n * b && beat * b >= 0) by (nonlinear_arith)
                requires
                    bar >= 0,
                    beat >= 0,
                    n >= 1,
                    b >= 1,
            ;
        }
        let bar_to_ticks = bar * numerator * ppb;
        let note_ticks = ticks - (bar_to_ticks + beat * ppb);

        Ok(BarsAndBeats { bar, beat, offset_ticks: note_ticks, pulses_per_beat: ppb })
    }
}

} // verus!
