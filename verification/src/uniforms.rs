//! Per-frame shader uniform state: the render resolution, taken from the
//! live window size, with a fixed fallback when no size can be reported.

use vstd::prelude::*;

verus! {

/// Width, in pixels, that the uniforms fall back to when the backend
/// cannot report a window size.
pub const DEFAULT_WIDTH: u32 = 1280;

/// Height, in pixels, that the uniforms fall back to when the backend
/// cannot report a window size.
pub const DEFAULT_HEIGHT: u32 = 800;

/// The uniform block uploaded to the shader before each draw: the
/// current render resolution in pixels.
#[derive(Clone, Copy, Debug, PartialEq, Eq, Structural)]
pub struct Uniforms {
    pub width: u32,
    pub height: u32,
}

/// Derive the per-frame uniform values from the window size the backend
/// reports.  When the backend reports a size, the resolution is exactly
/// that size; when it reports none, the resolution is the fixed default.
/// There is no failure path: a value is always returned.
pub fn build_uniforms(window_size: Option<(u32, u32)>) -> (u: Uniforms)
    ensures
        (match window_size {
            Some(dims) => u.width == dims.0 && u.height == dims.1,
            None => u.width == DEFAULT_WIDTH && u.height == DEFAULT_HEIGHT,
        }),
{
    match window_size {
        Some(dims) => Uniforms { width: dims.0, height: dims.1 },
        None => Uniforms { width: DEFAULT_WIDTH, height: DEFAULT_HEIGHT },
    }
}

} // verus!
