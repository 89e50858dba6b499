use vstd::prelude::*;

verus! {

/// The validation failures this library can report.
///
/// Both arise from caller-supplied data, are deterministic, and are surfaced
/// immediately: nothing is clamped or silently substituted.
#[derive(Clone, Copy, Debug, PartialEq, Eq, Structural)]
pub enum SongError {
    /// The time-signature denominator is neither `1` nor an even positive
    /// number, the numerator is zero, or the derived beat resolution is zero.
    InvalidTimeSignature,
    /// A span's end tick lies before its start tick.
    InvalidSpan,
}

} // verus!
