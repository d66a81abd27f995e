//! What the session asks its host to do.
//!
//! The session never touches the graphics runtime or the clock. Each call
//! hands back a list of commands; the host carries them out in order and,
//! where the last one has an outcome, reports it back.
//!
//! Fractions are written in thousandths, so that one half is `500` and one
//! is `1000`.

use vstd::prelude::*;
use crate::feature_level::FeatureLevel;

verus! {

/// A colour, each channel in thousandths of full intensity.
#[derive(Clone, Copy, Debug, PartialEq, Eq)]
pub struct Rgba {
    pub red: u16,
    pub green: u16,
    pub blue: u16,
    pub alpha: u16,
}

/// The rectangle of the render target that is drawn to, in whole pixels,
/// with its depth range in thousandths.
#[derive(Clone, Copy, Debug, PartialEq, Eq)]
pub struct Viewport {
    pub top_left_x: i32,
    pub top_left_y: i32,
    pub width: i32,
    pub height: i32,
    pub min_depth: u16,
    pub max_depth: u16,
}

/// One thing for the host to do.
#[derive(Clone, Copy, Debug, PartialEq, Eq)]
pub enum Command {
    /// Advance the timer by one step, running the update for that step.
    AdvanceTimer,
    /// Forget the time that has passed since the timer's last step.
    ResetElapsedTime,
    /// Let go of the swap chain and of whichever views exist.
    ReleaseResources,
    /// Let go of the device and of its context.
    ReleaseDevice,
    /// Create a hardware device on the default adapter, with a context for
    /// immediate submission, at the first of `levels` that the driver
    /// supports. The result code and the number of that level are reported
    /// to `Game::device_created`.
    CreateDevice { levels: [FeatureLevel; 7], debug_layer: bool },
    /// Create the swap chain for the window, with a back buffer of the given
    /// size. The result code is reported to `Game::swap_chain_created`.
    CreateSwapChain { window: usize, width: i32, height: i32 },
    /// Create a render-target view of the swap chain's back buffer. The
    /// result code is reported to `Game::render_target_view_created`.
    CreateRenderTargetView,
    /// Create a depth-stencil buffer of the given size and a view of it. The
    /// result code is reported to `Game::depth_stencil_view_created`.
    CreateDepthStencilView { width: i32, height: i32 },
    /// Fill the render target with one colour.
    ClearRenderTarget { color: Rgba },
    /// Reset both the depth and the stencil buffer.
    ClearDepthStencil { depth: u16, stencil: u8 },
    /// Bind the render-target view, with the depth-stencil view, as the one
    /// target of the output merger.
    BindRenderTarget,
    /// Set the one viewport of the rasterizer.
    SetViewport { viewport: Viewport },
    /// Show the back buffer, waiting for `sync_interval` vertical blanks. The
    /// result code is reported to `Game::presented`.
    Present { sync_interval: u32, flags: u32 },
}

/// The colour every frame starts from: a dark blue, fully opaque.
pub open spec fn background() -> Rgba {
    Rgba { red: 0, green: 0, blue: 500, alpha: 1000 }
}

/// The viewport that spans a whole target of the given size, over the full
/// depth range.
pub open spec fn full_viewport(width: i32, height: i32) -> Viewport {
    Viewport { top_left_x: 0, top_left_y: 0, width, height, min_depth: 0, max_depth: 1000 }
}

/// Presentation that waits for the next vertical blank.
pub open spec fn present_on_vsync() -> Command {
    Command::Present { sync_interval: 1, flags: 0 }
}

/// The commands that prepare a target of the given size for a frame:
/// background colour, farthest depth and stencil zero, the target bound and
/// the viewport spanning it.
pub open spec fn clear_commands(width: i32, height: i32) -> Seq<Command> {
    seq![
        Command::ClearRenderTarget { color: background() },
        Command::ClearDepthStencil { depth: 1000, stencil: 0 },
        Command::BindRenderTarget,
        Command::SetViewport { viewport: full_viewport(width, height) },
    ]
}

} // verus!
