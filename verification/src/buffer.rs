use vstd::prelude::*;

/// Ping-pong staging buffer pair for merges.
pub mod double_buffer;
/// The packed byte image of one frame.
pub mod image;
/// Per-context progressive accumulation state.
pub mod render_buffer;

verus! {

/// Largest value of one sample lane: a sample delivered by the device for
/// one pixel lane of one pass is a 32-bit intensity.
pub const SAMPLE_MAX: u64 = 0xffff_ffff;

/// Largest pass count a buffer accepts; together with [`SAMPLE_MAX`] it
/// keeps every running 64-bit lane sum free of overflow.
pub const MAX_PASSES: usize = 0xffff_ffff;

/// Number of pixels of a screen of the given size.
pub open spec fn pixel_count(dims: (usize, usize)) -> int {
    dims.0 * dims.1
}

/// Number of color lanes of a screen of the given size: three per pixel.
pub open spec fn lane_count(dims: (usize, usize)) -> int {
    3 * pixel_count(dims)
}

/// All accumulation lanes read as zero.
pub open spec fn all_zero(s: Seq<u64>) -> bool {
    forall|i: int| 0 <= i < s.len() ==> s[i] == 0
}

/// All image bytes read as zero.
pub open spec fn all_zero_bytes(s: Seq<u8>) -> bool {
    forall|i: int| 0 <= i < s.len() ==> s[i] == 0
}

/// Every lane of a running sum over `n` passes fits its pass count.
pub open spec fn lanes_bounded(s: Seq<u64>, n: int) -> bool {
    forall|i: int| 0 <= i < s.len() ==> s[i] <= n * SAMPLE_MAX
}

/// One step of the mean kernel, per lane: a base holding the mean `base`
/// over `np` passes takes in a running sum `sum` over `ns` more passes,
/// and the result is the arithmetic mean over all `np + ns` passes,
/// weighted by pass counts.  With no pass at all the lane reads as black.
pub open spec fn weighted_step(base: int, np: int, sum: int, ns: int) -> int {
    if np + ns <= 0 {
        0
    } else {
        (base * np + sum) / (np + ns)
    }
}

} // verus!
