//! Shared render configuration.
//!
//! Both execution paths read their bounds from here, so the one place where
//! they deliberately diverge — the recursion depth of the shading engine —
//! is written down as two named constants side by side.

use vstd::prelude::*;

verus! {

/// Recursion bound of the shading engine on the multicore path.
pub const CPU_MAX_DEPTH: u32 = 3;

/// Recursion bound of the shading engine on the compute-shader path.
/// Deliberately deeper than [`CPU_MAX_DEPTH`]: the two paths have always
/// used different defaults, and keeping both preserves their output.
pub const GPU_MAX_DEPTH: u32 = 5;

/// A complete description of one offline render job: the frame size, how
/// many frames the animation has, how many samples each pixel accumulates,
/// and the file the assembled animation is written to.
pub struct RenderSettings {
    /// Width of each frame in pixels.
    pub width: u32,
    /// Height of each frame in pixels.
    pub height: u32,
    /// Number of frames in the animation.
    pub num_frames: usize,
    /// Samples accumulated per pixel; one centered sample when this is 1.
    pub samples: u32,
    /// Name of the animation file the frames are assembled into.
    pub output_file: String,
}

/// The job that the program entry point runs when the multicore path is
/// chosen: 36 frames of 800 x 600 at 2 samples per pixel, assembled into
/// `animation.gif`.
pub fn main_cpu() -> (settings: RenderSettings)
    ensures
        settings.width == 800,
        settings.height == 600,
        settings.num_frames == 36,
        settings.samples == 2,
        settings.output_file@ == "animation.gif"@,
{
    RenderSettings {
        width: 800,
        height: 600,
        num_frames: 36,
        samples: 2,
        output_file: "animation.gif".to_owned(),
    }
}

} // verus!
