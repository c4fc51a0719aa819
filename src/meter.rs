use vstd::prelude::*;

use crate::level::Level;

verus! {

/// The peak meter's rule for one sample frame.
///
/// When no observer is attached the peak is left alone. Otherwise a frame
/// louder than the peak sets it; any other frame lets it fall to `decayed`,
/// which the caller computes as `peak * w + amplitude * (1 - w)` with the
/// decay weight `w`.
pub fn next_peak(observed: bool, peak: Level, amplitude: Level, decayed: Level) -> (r: Level)
    ensures
        !observed ==> r == peak,
        observed && amplitude.greater_spec(peak) ==> r == amplitude,
        observed && !amplitude.greater_spec(peak) ==> r == decayed,
{
    if !observed {
        peak
    } else if amplitude.greater_than(&peak) {
        amplitude
    } else {
        decayed
    }
}

} // verus!
