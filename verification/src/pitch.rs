//! Choice of the samples the pitch detector analyses.
use vstd::prelude::*;

verus! {

/// Number of samples the pitch detector analyses at once.
pub const DETECTION_SIZE: usize = 4096;

/// Zero padding the detector adds to each window.
pub const PADDING: usize = 2048;

/// Start of the analysis window in `len` samples: the window is the last
/// `DETECTION_SIZE` samples, and there is none when fewer are at hand.
pub fn detection_window_start(len: usize) -> (start: Option<usize>)
    ensures
        start is None <==> len < DETECTION_SIZE,
        start matches Some(s) ==> s + DETECTION_SIZE == len,
{
    if len < DETECTION_SIZE {
        None
    } else {
        Some(len - DETECTION_SIZE)
    }
}

} // verus!
