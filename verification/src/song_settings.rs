use vstd::prelude::*;

use crate::error::SongError;

verus! {

/// Whether a time-signature denominator is usable: it must be `1` or an even
/// positive number.
pub open spec fn valid_denominator(d: int) -> bool {
    d == 1 || (d > 0 && d % 2 == 0)
}

/// The tick resolution of one beat, derived from the pulses-per-quarter-note
/// resolution `ppq` and the time-signature denominator `d`.
///
/// The rule, stated once and used everywhere: a denominator up to `4`
/// divides the quarter-note resolution by the floored ratio of a quarter
/// note to the denominated note value, `4 / d` (so a denominator of `1`
/// yields `ppq / 4`); a larger denominator rescales multiplicatively as
/// `ppq * d / 4`, since there the ratio would truncate to zero. All
/// divisions truncate toward zero.
pub open spec fn spec_pulses_per_beat(ppq: int, d: int) -> int
    recommends
        valid_denominator(d),
{
    if d <= 4 {
        ppq / (4int / d)
    } else {
        ppq * d / 4
    }
}

/// The timeline configuration of a song: resolution, time signature, and the
/// remaining per-song playback attributes.
///
/// Tempo and overall length are floating-point attributes and live with the
/// unverified presentation layer, not here.
#[derive(Clone)]
pub struct SongSettings {
    ppq: u64,
    sample_rate: i64,
    frame_type: i64,
    time_signature_numerator: u64,
    time_signature_denominator: u64,
    key_signature: String,
    track_count: i32,
    bit_depth: i64,
    time_format: i64,
}

impl SongSettings {
    pub closed spec fn spec_pulses_per_quarter(&self) -> u64 {
        self.ppq
    }

    pub closed spec fn spec_sample_rate(&self) -> i64 {
        self.sample_rate
    }

    pub closed spec fn spec_frame_type(&self) -> i64 {
        self.frame_type
    }

    pub closed spec fn spec_time_signature_numerator(&self) -> u64 {
        self.time_signature_numerator
    }

    pub closed spec fn spec_time_signature_denominator(&self) -> u64 {
        self.time_signature_denominator
    }

    pub closed spec fn spec_key_signature(&self) -> Seq<char> {
        self.key_signature@
    }

    pub closed spec fn spec_track_count(&self) -> i32 {
        self.track_count
    }

    pub closed spec fn spec_bit_depth(&self) -> i64 {
        self.bit_depth
    }

    pub closed spec fn spec_time_format(&self) -> i64 {
        self.time_format
    }

    /// The beat resolution this configuration denotes, when it is valid.
    pub open spec fn spec_beat_resolution(&self) -> int {
        spec_pulses_per_beat(
            self.spec_pulses_per_quarter() as int,
            self.spec_time_signature_denominator() as int,
        )
    }

    /// Whether the denominator passes validation.
    pub open spec fn spec_valid_time_signature(&self) -> bool {
        valid_denominator(self.spec_time_signature_denominator() as int)
    }

    /// Whether this is the conventional starting configuration that
    /// `default` builds.
    pub open spec fn spec_is_initial(&self) -> bool {
        &&& self.spec_pulses_per_quarter() == 960
        &&& self.spec_sample_rate() == 44100
        &&& self.spec_frame_type() == 0
        &&& self.spec_time_signature_numerator() == 4
        &&& self.spec_time_signature_denominator() == 4
        &&& self.spec_key_signature() == "C Major"@
        &&& self.spec_track_count() == 0
        &&& self.spec_bit_depth() == 64
        &&& self.spec_time_format() == 0
    }

    // Getters
    pub fn get_pulses_per_quarter(&self) -> (r: u64)
        ensures
            r == self.spec_pulses_per_quarter(),
    {
        self.ppq
    }

    /// Resolve the time signature: the number of pulses (ticks) that span one
    /// beat. A denominator other than `1` or an even positive number is
    /// rejected with `InvalidTimeSignature` before any arithmetic happens.
    pub fn get_pulses_per_beat(&self) -> (r: Result<u64, SongError>)
        requires
            self.spec_valid_time_signature() ==> self.spec_beat_resolution() <= u64::MAX,
        ensures
            r is Ok <==> self.spec_valid_time_signature(),
            r is Ok ==> r->Ok_0 == self.spec_beat_resolution(),
            r is Err ==> r->Err_0 == SongError::InvalidTimeSignature,
    {
        let d = self.time_signature_denominator;
        if !(d == 1 || (d > 0 && d % 2 == 0)) {
            return Err(SongError::InvalidTimeSignature);
        }
        if d <= 4 {
            proof {
                assert(d == 1 || d == 2 || d == 4);
            }
            let divisor: u64 = if d == 1 {
                4
            } else if d == 2 {
                2
            } else {
                1
            };
            proof {
                if d == 1 {
                    assert(4int / 1int == 4int);
                } else if d == 2 {
                    assert(4int / 2int == 2int);
                } else {
                    assert(4int / 4int == 1int);
                }
                assert(divisor as int == 4int / (d as int));
            }
            return Ok(self.ppq / divisor);
        }
        proof {
            let p = self.ppq as int;
            let dd = d as int;
            assert(p * dd <= (u64::MAX as int) * (u64::MAX as int)) by (nonlinear_arith)
                requires
                    0 <= p <= u64::MAX as int,
                    0 <= dd <= u64::MAX as int,
            ;
        }
        let wide: u128 = (self.ppq as u128) * (d as u128);
        Ok((wide / 4) as u64)
    }

    pub fn get_sample_rate(&self) -> (r: i64)
        ensures
            r == self.spec_sample_rate(),
    {
        self.sample_rate
    }

    pub fn get_frame_type(&self) -> (r: i64)
        ensures
            r == self.spec_frame_type(),
    {
        self.frame_type
    }

    pub fn get_time_signature_numerator(&self) -> (r: u64)
        ensures
            r == self.spec_time_signature_numerator(),
    {
        self.time_signature_numerator
    }

    pub fn get_time_signature_denominator(&self) -> (r: u64)
        ensures
            r == self.spec_time_signature_denominator(),
    {
        self.time_signature_denominator
    }

    pub fn get_key_signature(&self) -> (r: &String)
        ensures
            r@ == self.spec_key_signature(),
    {
        &self.key_signature
    }

    pub fn get_track_count(&self) -> (r: i32)
        ensures
            r == self.spec_track_count(),
    {
        self.track_count
    }

    pub fn get_bit_depth(&self) -> (r: i64)
        ensures
            r == self.spec_bit_depth(),
    {
        self.bit_depth
    }

    pub fn get_time_format(&self) -> (r: i64)
        ensures
            r == self.spec_time_format(),
    {
        self.time_format
    }

    // Setters
    pub fn set_pulses_per_quarter(&mut self, value: u64)
        ensures
            final(self).spec_pulses_per_quarter() == value,
            final(self).spec_sample_rate() == old(self).spec_sample_rate(),
            final(self).spec_frame_type() == old(self).spec_frame_type(),
            final(self).spec_time_signature_numerator() == old(
                self,
            ).spec_time_signature_numerator(),
            final(self).spec_time_signature_denominator() == old(
                self,
            ).spec_time_signature_denominator(),
            final(self).spec_key_signature() == old(self).spec_key_signature(),
            final(self).spec_track_count() == old(self).spec_track_count(),
            final(self).spec_bit_depth() == old(self).spec_bit_depth(),
            final(self).spec_time_format() == old(self).spec_time_format(),
    {
        self.ppq = value
    }

    pub fn set_sample_rate(&mut self, value: i64)
        ensures
            final(self).spec_sample_rate() == value,
            final(self).spec_pulses_per_quarter() == old(self).spec_pulses_per_quarter(),
            final(self).spec_frame_type() == old(self).spec_frame_type(),
            final(self).spec_time_signature_numerator() == old(
                self,
            ).spec_time_signature_numerator(),
            final(self).spec_time_signature_denominator() == old(
                self,
            ).spec_time_signature_denominator(),
            final(self).spec_key_signature() == old(self).spec_key_signature(),
            final(self).spec_track_count() == old(self).spec_track_count(),
            final(self).spec_bit_depth() == old(self).spec_bit_depth(),
            final(self).spec_time_format() == old(self).spec_time_format(),
    {
        self.sample_rate = value;
    }

    pub fn set_frame_type(&mut self, value: i64)
        ensures
            final(self).spec_frame_type() == value,
            final(self).spec_pulses_per_quarter() == old(self).spec_pulses_per_quarter(),
            final(self).spec_sample_rate() == old(self).spec_sample_rate(),
            final(self).spec_time_signature_numerator() == old(
                self,
            ).spec_time_signature_numerator(),
            final(self).spec_time_signature_denominator() == old(
                self,
            ).spec_time_signature_denominator(),
            final(self).spec_key_signature() == old(self).spec_key_signature(),
            final(self).spec_track_count() == old(self).spec_track_count(),
            final(self).spec_bit_depth() == old(self).spec_bit_depth(),
            final(self).spec_time_format() == old(self).spec_time_format(),
    {
        self.frame_type = value;
    }

    pub fn set_time_signature_numerator(&mut self, value: u64)
        ensures
            final(self).spec_time_signature_numerator() == value,
            final(self).spec_pulses_per_quarter() == old(self).spec_pulses_per_quarter(),
            final(self).spec_sample_rate() == old(self).spec_sample_rate(),
            final(self).spec_frame_type() == old(self).spec_frame_type(),
            final(self).spec_time_signature_denominator() == old(
                self,
            ).spec_time_signature_denominator(),
            final(self).spec_key_signature() == old(self).spec_key_signature(),
            final(self).spec_track_count() == old(self).spec_track_count(),
            final(self).spec_bit_depth() == old(self).spec_bit_depth(),
            final(self).spec_time_format() == old(self).spec_time_format(),
    {
        self.time_signature_numerator = value;
    }

    pub fn set_time_signature_denominator(&mut self, value: u64)
        ensures
            final(self).spec_time_signature_denominator() == value,
            final(self).spec_pulses_per_quarter() == old(self).spec_pulses_per_quarter(),
            final(self).spec_sample_rate() == old(self).spec_sample_rate(),
            final(self).spec_frame_type() == old(self).spec_frame_type(),
            final(self).spec_time_signature_numerator() == old(
                self,
            ).spec_time_signature_numerator(),
            final(self).spec_key_signature() == old(self).spec_key_signature(),
            final(self).spec_track_count() == old(self).spec_track_count(),
            final(self).spec_bit_depth() == old(self).spec_bit_depth(),
            final(self).spec_time_format() == old(self).spec_time_format(),
    {
        self.time_signature_denominator = value;
    }

    pub fn set_key_signature(&mut self, value: String)
        ensures
            final(self).spec_key_signature() == value@,
            final(self).spec_pulses_per_quarter() == old(self).spec_pulses_per_quarter(),
            final(self).spec_sample_rate() == old(self).spec_sample_rate(),
            final(self).spec_frame_type() == old(self).spec_frame_type(),
            final(self).spec_time_signature_numerator() == old(
                self,
            ).spec_time_signature_numerator(),
            final(self).spec_time_signature_denominator() == old(
                self,
            ).spec_time_signature_denominator(),
            final(self).spec_track_count() == old(self).spec_track_count(),
            final(self).spec_bit_depth() == old(self).spec_bit_depth(),
            final(self).spec_time_format() == old(self).spec_time_format(),
    {
        self.key_signature = value;
    }

    pub fn set_track_count(&mut self, value: i32)
        ensures
            final(self).spec_track_count() == value,
            final(self).spec_pulses_per_quarter() == old(self).spec_pulses_per_quarter(),
            final(self).spec_sample_rate() == old(self).spec_sample_rate(),
            final(self).spec_frame_type() == old(self).spec_frame_type(),
            final(self).spec_time_signature_numerator() == old(
                self,
            ).spec_time_signature_numerator(),
            final(self).spec_time_signature_denominator() == old(
                self,
            ).spec_time_signature_denominator(),
            final(self).spec_key_signature() == old(self).spec_key_signature(),
            final(self).spec_bit_depth() == old(self).spec_bit_depth(),
            final(self).spec_time_format() == old(self).spec_time_format(),
    {
        self.track_count = value;
    }

    pub fn set_bit_depth(&mut self, value: i64)
        ensures
            final(self).spec_bit_depth() == value,
            final(self).spec_pulses_per_quarter() == old(self).spec_pulses_per_quarter(),
            final(self).spec_sample_rate() == old(self).spec_sample_rate(),
            final(self).spec_frame_type() == old(self).spec_frame_type(),
            final(self).spec_time_signature_numerator() == old(
                self,
            ).spec_time_signature_numerator(),
            final(self).spec_time_signature_denominator() == old(
                self,
            ).spec_time_signature_denominator(),
            final(self).spec_key_signature() == old(self).spec_key_signature(),
            final(self).spec_track_count() == old(self).spec_track_count(),
            final(self).spec_time_format() == old(self).spec_time_format(),
    {
        self.bit_depth = value;
    }

    pub fn set_time_format(&mut self, value: i64)
        ensures
            final(self).spec_time_format() == value,
            final(self).spec_pulses_per_quarter() == old(self).spec_pulses_per_quarter(),
            final(self).spec_sample_rate() == old(self).spec_sample_rate(),
            final(self).spec_frame_type() == old(self).spec_frame_type(),
            final(self).spec_time_signature_numerator() == old(
                self,
            ).spec_time_signature_numerator(),
            final(self).spec_time_signature_denominator() == old(
                self,
            ).spec_time_signature_denominator(),
            final(self).spec_key_signature() == old(self).spec_key_signature(),
            final(self).spec_track_count() == old(self).spec_track_count(),
            final(self).spec_bit_depth() == old(self).spec_bit_depth(),
    {
        self.time_format = value;
    }
}

impl Default for SongSettings {
    /// The conventional starting configuration: 960 pulses per quarter note,
    /// 4/4 time, 44.1 kHz sample rate, 64-bit depth, key of C major.
    fn default() -> (r: Self)
        ensures
            r.spec_pulses_per_quarter() == 960,
            r.spec_sample_rate() == 44100,
            r.spec_frame_type() == 0,
            r.spec_time_signature_numerator() == 4,
            r.spec_time_signature_denominator() == 4,
            r.spec_key_signature() == "C Major"@,
            r.spec_track_count() == 0,
            r.spec_bit_depth() == 64,
            r.spec_time_format() == 0,
    {
        SongSettings {
            ppq: 960,
            sample_rate: 44100,
            frame_type: 0,
            time_signature_numerator: 4,
            time_signature_denominator: 4,
            key_signature: "C Major".to_owned(),
            track_count: 0,
            bit_depth: 64,
            time_format: 0,
        }
    }
}

} // verus!
