use vstd::prelude::*;

verus! {

/// Fade-in alpha of the menu, in thousandths of full opacity: a linear ramp
/// over elapsed time since the accumulator was last reset, reaching full
/// opacity after half a second and clamped there.
pub open spec fn spec_fade_permille(elapsed_ms: u64) -> int {
    if elapsed_ms >= 500 {
        1000
    } else {
        2 * elapsed_ms as int
    }
}

/// Derive the fade-in alpha (thousandths) from the elapsed-time accumulator
/// (milliseconds).
pub fn fade_permille(elapsed_ms: u64) -> (alpha: u64)
    ensures
        alpha == spec_fade_permille(elapsed_ms),
        alpha <= 1000,
{
    if elapsed_ms >= 500 {
        1000
    } else {
        2 * elapsed_ms
    }
}

} // verus!
