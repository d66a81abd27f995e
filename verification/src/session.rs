//! The session as a state machine: what each call and each reported outcome
//! does to the state, and which commands it asks for.
//!
//! The steps themselves are ghost code: they say what `Game`, the object
//! that a host holds, does at each of its calls.

use vstd::prelude::*;
use crate::command::{clear_commands, present_on_vsync, Command};
use crate::feature_level::{preferred_levels, FeatureLevel};
use crate::status::{classify_presentation, is_failure, Fault, PresentStatus, Stage};

verus! {

/// Where the session stands, and with it what exists. The device comes with
/// its context; the swap chain needs the device, the render-target view the
/// swap chain, and the depth-stencil view is built last.
#[derive(Clone, Copy, Debug, PartialEq, Eq)]
pub enum Phase {
    /// Nothing exists. The session takes calls.
    Uninitialized,
    /// Nothing exists. The outcome of `Command::CreateDevice` is awaited.
    CreatingDevice,
    /// The device exists. The outcome of `Command::CreateSwapChain` is
    /// awaited.
    CreatingSwapChain,
    /// Device and swap chain exist. The outcome of
    /// `Command::CreateRenderTargetView` is awaited.
    CreatingRenderTargetView,
    /// All but the depth-stencil view exists. The outcome of
    /// `Command::CreateDepthStencilView` is awaited.
    CreatingDepthStencilView,
    /// Everything exists. The session takes calls.
    Ready,
    /// Everything exists. The result code of `Command::Present` is awaited.
    Presenting,
    /// The session has stopped on this fault and uses nothing any more.
    Failed { fault: Fault },
}

impl Phase {
    /// The device and its context exist.
    pub open spec fn has_device(self) -> bool {
        self is CreatingSwapChain || self.has_swap_chain()
    }

    /// The swap chain exists.
    pub open spec fn has_swap_chain(self) -> bool {
        self is CreatingRenderTargetView || self.has_render_target_view()
    }

    /// The view of the swap chain's back buffer exists.
    pub open spec fn has_render_target_view(self) -> bool {
        self is CreatingDepthStencilView || self.has_depth_stencil_view()
    }

    /// The depth-stencil view exists, and with it everything else.
    pub open spec fn has_depth_stencil_view(self) -> bool {
        self is Ready || self is Presenting
    }

    /// No outcome is awaited and the session has not stopped.
    pub open spec fn takes_calls(self) -> bool {
        self is Uninitialized || self is Ready
    }
}

/// Everything the session knows.
#[derive(Clone, Copy, Debug, PartialEq, Eq)]
pub struct Session {
    /// The window that is drawn to, as the host names it.
    pub window: usize,
    pub width: i32,
    pub height: i32,
    /// The level the latest device was created at.
    pub feature_level: FeatureLevel,
    /// How many devices have been created. It names the current one.
    pub device_generation: u64,
    /// How many times the swap chain and both views have been created.
    pub surface_generation: u64,
    /// How many steps the timer has taken.
    pub frame_count: u64,
    /// Whether devices are created with the validation layer.
    pub debug_layer: bool,
    pub phase: Phase,
}

/// A width or height as it is stored: never below one.
pub open spec fn clamp_dimension(value: i32) -> i32 {
    if value < 1 {
        1
    } else {
        value
    }
}

/// The generation after `g`. It differs from `g` for every `g`.
pub open spec fn next_generation(g: u64) -> u64 {
    if g == u64::MAX {
        0
    } else {
        (g + 1) as u64
    }
}

/// The frame count after one more step. It stays at the largest value
/// rather than return to zero.
pub open spec fn next_frame_count(n: u64) -> u64 {
    if n == u64::MAX {
        n
    } else {
        (n + 1) as u64
    }
}

impl Session {
    /// The session before anything was asked of it: no window, nothing
    /// created, the default size.
    pub open spec fn initial() -> Session {
        Session {
            window: 0,
            width: 800,
            height: 600,
            feature_level: FeatureLevel::Level9_1,
            device_generation: 0,
            surface_generation: 0,
            frame_count: 0,
            debug_layer: false,
            phase: Phase::Uninitialized,
        }
    }

    /// What holds of every session a `Game` is ever in.
    pub open spec fn wf(self) -> bool {
        &&& self.width >= 1
        &&& self.height >= 1
        &&& self.phase is Presenting ==> self.frame_count > 0
    }

    /// Device, context, swap chain and both views all exist.
    pub open spec fn ready(self) -> bool {
        &&& self.phase.has_device()
        &&& self.phase.has_swap_chain()
        &&& self.phase.has_render_target_view()
        &&& self.phase.has_depth_stencil_view()
    }

    /// The request for a device: every level on offer, most capable first.
    pub open spec fn device_request(self) -> Command {
        Command::CreateDevice { levels: preferred_levels(), debug_layer: self.debug_layer }
    }

    /// The request for a swap chain of the stored size on the stored window.
    pub open spec fn swap_chain_request(self) -> Command {
        Command::CreateSwapChain { window: self.window, width: self.width, height: self.height }
    }

    /// The request for a depth-stencil view of the stored size.
    pub open spec fn depth_stencil_request(self) -> Command {
        Command::CreateDepthStencilView { width: self.width, height: self.height }
    }

    /// The commands that let go of whatever exists, swap chain and views
    /// before the device.
    pub open spec fn release_all(self) -> Seq<Command> {
        (if self.phase.has_swap_chain() {
            seq![Command::ReleaseResources]
        } else {
            Seq::empty()
        }) + (if self.phase.has_device() {
            seq![Command::ReleaseDevice]
        } else {
            Seq::empty()
        })
    }

    /// Starts a device from nothing: whatever exists is let go first.
    pub open spec fn create_device(self) -> (Session, Seq<Command>) {
        (
            Session { phase: Phase::CreatingDevice, ..self },
            self.release_all() + seq![self.device_request()],
        )
    }

    /// Starts the swap chain and views at the stored size, beginning with
    /// the swap chain and letting go of the previous ones first. Without a
    /// device there is nothing to build them from, and nothing is asked for.
    pub open spec fn create_resources(self) -> (Session, Seq<Command>) {
        if self.phase.has_device() {
            (
                Session { phase: Phase::CreatingSwapChain, ..self },
                (if self.phase.has_swap_chain() {
                    seq![Command::ReleaseResources]
                } else {
                    Seq::empty()
                }) + seq![self.swap_chain_request()],
            )
        } else {
            (self, Seq::empty())
        }
    }

    /// Takes the window and its size, neither dimension below one, and
    /// starts over with a new device.
    pub open spec fn initialize(self, window: usize, width: i32, height: i32) -> (
        Session,
        Seq<Command>,
    ) {
        Session {
            window,
            width: clamp_dimension(width),
            height: clamp_dimension(height),
            ..self
        }.create_device()
    }

    /// Takes the window's new size, neither dimension below one, and
    /// rebuilds what depends on it. The device does not.
    pub open spec fn resize(self, width: i32, height: i32) -> (Session, Seq<Command>) {
        Session {
            width: clamp_dimension(width),
            height: clamp_dimension(height),
            ..self
        }.create_resources()
    }

    /// The commands that prepare the target for a frame; none unless
    /// everything to draw with exists.
    pub open spec fn clear(self) -> Seq<Command> {
        if self.ready() {
            clear_commands(self.width, self.height)
        } else {
            Seq::empty()
        }
    }

    /// One frame: prepared, drawn and presented. Nothing happens before the
    /// timer's first step, nor while anything to draw with is missing.
    pub open spec fn render(self) -> (Session, Seq<Command>) {
        if self.frame_count == 0 || !self.ready() {
            (self, Seq::empty())
        } else {
            (Session { phase: Phase::Presenting, ..self }, self.clear() + seq![present_on_vsync()])
        }
    }

    /// One step of the timer, then one frame. The frame sees the count of
    /// the steps before this one.
    pub open spec fn tick(self) -> (Session, Seq<Command>) {
        let (drawn, commands) = self.render();
        (
            Session { frame_count: next_frame_count(self.frame_count), ..drawn },
            seq![Command::AdvanceTimer] + commands,
        )
    }

    /// The session stopped on a failure, and says so.
    pub open spec fn stop(self, stage: Stage, status: i32) -> (
        Session,
        Result<Seq<Command>, Fault>,
    ) {
        let fault = Fault { stage, status };
        (Session { phase: Phase::Failed { fault }, ..self }, Err(fault))
    }

    /// One step of building: a failure stops the session at `stage`;
    /// otherwise the session goes on as `next` and asks for `commands`.
    pub open spec fn advance(
        self,
        status: i32,
        stage: Stage,
        next: Session,
        commands: Seq<Command>,
    ) -> (Session, Result<Seq<Command>, Fault>) {
        if is_failure(status) {
            self.stop(stage, status)
        } else {
            (next, Ok(commands))
        }
    }

    /// A new device is taken only if its creation succeeded at a level that
    /// was on offer.
    pub open spec fn device_accepted(status: i32, level_code: u32) -> bool {
        !is_failure(status) && FeatureLevel::level_of(level_code) is Some
    }

    /// The outcome of a device's creation. The device is taken with its
    /// level, and the swap chain is asked for at once.
    pub open spec fn device_created(self, status: i32, level_code: u32) -> (
        Session,
        Result<Seq<Command>, Fault>,
    ) {
        if Self::device_accepted(status, level_code) {
            (
                Session {
                    phase: Phase::CreatingSwapChain,
                    feature_level: FeatureLevel::level_of(level_code)->0,
                    device_generation: next_generation(self.device_generation),
                    ..self
                },
                Ok(seq![self.swap_chain_request()]),
            )
        } else {
            self.stop(Stage::DeviceCreation, status)
        }
    }

    /// The outcome of the swap chain's creation. The render-target view of
    /// its back buffer comes next.
    pub open spec fn swap_chain_created(self, status: i32) -> (
        Session,
        Result<Seq<Command>, Fault>,
    ) {
        self.advance(
            status,
            Stage::SwapChainCreation,
            Session { phase: Phase::CreatingRenderTargetView, ..self },
            seq![Command::CreateRenderTargetView],
        )
    }

    /// The outcome of the render-target view's creation. The depth-stencil
    /// view comes next, at the stored size.
    pub open spec fn render_target_view_created(self, status: i32) -> (
        Session,
        Result<Seq<Command>, Fault>,
    ) {
        self.advance(
            status,
            Stage::RenderTargetViewCreation,
            Session { phase: Phase::CreatingDepthStencilView, ..self },
            seq![self.depth_stencil_request()],
        )
    }

    /// The outcome of the depth-stencil view's creation, the last of the
    /// three: with it the session is ready to render.
    pub open spec fn depth_stencil_view_created(self, status: i32) -> (
        Session,
        Result<Seq<Command>, Fault>,
    ) {
        self.advance(
            status,
            Stage::DepthStencilViewCreation,
            Session {
                phase: Phase::Ready,
                surface_generation: next_generation(self.surface_generation),
                ..self
            },
            Seq::empty(),
        )
    }

    /// The outcome of a presentation.
    pub open spec fn presented(self, status: i32) -> (Session, Result<Seq<Command>, Fault>) {
        match classify_presentation(status) {
            PresentStatus::Shown => (Session { phase: Phase::Ready, ..self }, Ok(Seq::empty())),
            PresentStatus::DeviceLost => {
                let (next, commands) = self.create_device();
                (next, Ok(commands))
            },
            PresentStatus::Failed => self.stop(Stage::Presentation, status),
        }
    }
}

/// What a step hands back, with its commands as a sequence.
pub open spec fn outcome_of(result: Result<Vec<Command>, Fault>) -> Result<Seq<Command>, Fault> {
    match result {
        Ok(commands) => Ok(commands@),
        Err(fault) => Err(fault),
    }
}

} // verus!
