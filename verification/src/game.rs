//! The session object a host holds.
//!
//! A host creates a `Game`, calls `initialize` once it has a window, and
//! `tick` once per frame. Every call returns the commands to carry out, in
//! order. Some commands have an outcome, and each of those is the last of
//! its list: the host reports it with the call that the command names,
//! which may ask for more. A call runs to its end, through all reports,
//! before the next call is made.

use vstd::prelude::*;
use crate::command::{clear_commands, present_on_vsync, Command, Rgba, Viewport};
use crate::feature_level::{candidate_levels, FeatureLevel};
use crate::session::{
    clamp_dimension, next_frame_count, next_generation, outcome_of, Phase, Session,
};
use crate::status::{classify, failed, Fault, PresentStatus, Stage, DEVICE_REMOVED, DEVICE_RESET};

verus! {

/// A rendering session: the window it draws to, the size of its output,
/// and how far the device and what is built on it have come.
pub struct Game {
    state: Session,
}

impl View for Game {
    type V = Session;

    closed spec fn view(&self) -> Session {
        self.state
    }
}

impl Game {
    #[verifier::type_invariant]
    spec fn well_formed(self) -> bool {
        self.state.wf()
    }

    /// A session with no window and nothing created, at the default size.
    pub fn new() -> (game: Game)
        ensures
            game@ == Session::initial(),
            game@.wf(),
    {
        Game {
            state: Session {
                window: 0,
                width: 800,
                height: 600,
                feature_level: FeatureLevel::Level9_1,
                device_generation: 0,
                surface_generation: 0,
                frame_count: 0,
                debug_layer: false,
                phase: Phase::Uninitialized,
            },
        }
    }

    /// Takes the window and the size of its client area, neither dimension
    /// below one, and starts building the device; the swap chain and views
    /// follow when the device is reported. What existed before is let go.
    pub fn initialize(&mut self, window: usize, width: i32, height: i32) -> (commands: Vec<
        Command,
    >)
        requires
            old(self)@.phase.takes_calls(),
        ensures
            final(self)@ == old(self)@.initialize(window, width, height).0,
            commands@ == old(self)@.initialize(window, width, height).1,
            final(self)@.width == clamp_dimension(width),
            final(self)@.height == clamp_dimension(height),
            width <= 0 ==> final(self)@.width == 1,
            height <= 0 ==> final(self)@.height == 1,
            final(self)@.window == window,
            final(self)@.phase is CreatingDevice,
            commands@.last() == old(self)@.device_request(),
            final(self)@.wf(),
    {
        proof {
            use_type_invariant(&*self);
        }
        self.state.window = window;
        self.state.width = if width < 1 { 1 } else { width };
        self.state.height = if height < 1 { 1 } else { height };
        self.create_device()
    }

    /// One frame of the host's loop: the timer takes a step, then a frame is
    /// rendered unless this is the timer's first step.
    pub fn tick(&mut self) -> (commands: Vec<Command>)
        requires
            old(self)@.phase.takes_calls(),
        ensures
            final(self)@ == old(self)@.tick().0,
            commands@ == old(self)@.tick().1,
            commands@[0] == Command::AdvanceTimer,
            final(self)@.frame_count == next_frame_count(old(self)@.frame_count),
            old(self)@.frame_count == 0 ==> commands@ == seq![Command::AdvanceTimer]
                && final(self)@.phase == old(self)@.phase,
            final(self)@.wf(),
    {
        proof {
            use_type_invariant(&*self);
        }
        let mut commands: Vec<Command> = Vec::new();
        commands.push(Command::AdvanceTimer);
        let mut frame = self.render();
        commands.append(&mut frame);
        self.state.frame_count = self.state.frame_count.saturating_add(1);
        commands
    }

    /// Prepares the target, draws and presents. Before the timer's first
    /// step this does nothing, whatever exists; and nothing is asked of a
    /// device, context or view that is missing.
    pub fn render(&mut self) -> (commands: Vec<Command>)
        requires
            old(self)@.phase.takes_calls(),
        ensures
            final(self)@ == old(self)@.render().0,
            commands@ == old(self)@.render().1,
            old(self)@.frame_count == 0 ==> commands@.len() == 0 && final(self)@ == old(self)@,
            !old(self)@.ready() ==> commands@.len() == 0 && final(self)@ == old(self)@,
            commands@.len() > 0 ==> final(self)@.phase is Presenting && commands@
                == old(self)@.clear().push(present_on_vsync()),
            final(self)@.wf(),
    {
        proof {
            use_type_invariant(&*self);
        }
        if self.state.frame_count == 0 {
            return Vec::new();
        }
        if !self.is_ready() {
            return Vec::new();
        }
        let mut commands = self.clear();
        let shown = self.present();
        commands.push(shown);
        commands
    }

    /// The commands that prepare the target for a frame: the background
    /// colour, the farthest depth and stencil zero, the target bound, and a
    /// viewport over the whole output. None of them unless the device, its
    /// context, the swap chain and both views exist.
    pub fn clear(&self) -> (commands: Vec<Command>)
        ensures
            commands@ == self@.clear(),
            self@.ready() ==> commands@ == clear_commands(self@.width, self@.height),
            !self@.phase.has_device() || !self@.phase.has_swap_chain()
                || !self@.phase.has_render_target_view() || !self@.phase.has_depth_stencil_view()
                ==> commands@.len() == 0,
    {
        let mut commands: Vec<Command> = Vec::new();
        if self.is_ready() {
            commands.push(
                Command::ClearRenderTarget {
                    color: Rgba { red: 0, green: 0, blue: 500, alpha: 1000 },
                },
            );
            commands.push(Command::ClearDepthStencil { depth: 1000, stencil: 0 });
            commands.push(Command::BindRenderTarget);
            commands.push(
                Command::SetViewport {
                    viewport: Viewport {
                        top_left_x: 0,
                        top_left_y: 0,
                        width: self.state.width,
                        height: self.state.height,
                        min_depth: 0,
                        max_depth: 1000,
                    },
                },
            );
        }
        commands
    }

    /// Asks for the frame to be shown at the next vertical blank.
    fn present(&mut self) -> (command: Command)
        requires
            old(self)@.frame_count > 0,
        ensures
            command == present_on_vsync(),
            final(self)@ == (Session { phase: Phase::Presenting, ..old(self)@ }),
    {
        proof {
            use_type_invariant(&*self);
        }
        self.state.phase = Phase::Presenting;
        Command::Present { sync_interval: 1, flags: 0 }
    }

    /// Takes the result code of a presentation. A code that is no failure
    /// ends the frame. Either device-loss code starts the rebuilding of
    /// device, swap chain and views. Every other failure stops the session.
    pub fn presented(&mut self, status: i32) -> (result: Result<Vec<Command>, Fault>)
        requires
            old(self)@.phase is Presenting,
        ensures
            final(self)@ == old(self)@.presented(status).0,
            outcome_of(result) == old(self)@.presented(status).1,
            result is Err <==> status < 0 && status != DEVICE_REMOVED && status != DEVICE_RESET,
            result matches Err(fault) ==> fault == (Fault { stage: Stage::Presentation, status })
                && final(self)@.phase == (Phase::Failed { fault }),
            status >= 0 ==> final(self)@.phase is Ready && (result matches Ok(commands)
                && commands@.len() == 0),
            status == DEVICE_REMOVED || status == DEVICE_RESET ==> final(self)@.phase
                is CreatingDevice && (result matches Ok(commands) && commands@ == seq![
                Command::ReleaseResources,
                Command::ReleaseDevice,
                old(self)@.device_request(),
            ]),
            final(self)@.wf(),
    {
        proof {
            use_type_invariant(&*self);
        }
        match classify(status) {
            PresentStatus::Shown => {
                self.state.phase = Phase::Ready;
                Ok(Vec::new())
            },
            PresentStatus::DeviceLost => Ok(self.on_device_lost()),
            PresentStatus::Failed => Err(self.fail(Stage::Presentation, status)),
        }
    }

    /// The host's window became the active one. Nothing to do.
    pub fn on_activated(&mut self)
        ensures
            final(self)@ == old(self)@,
    {
    }

    /// The host's window went to the background. Nothing to do.
    pub fn on_deactivated(&mut self)
        ensures
            final(self)@ == old(self)@,
    {
    }

    /// The host is being suspended or minimised. Nothing to do.
    pub fn on_suspending(&mut self)
        ensures
            final(self)@ == old(self)@,
    {
    }

    /// The host is back from suspension. The time spent there must not
    /// count as one long step, so the timer is told to forget it.
    pub fn on_resuming(&mut self) -> (commands: Vec<Command>)
        ensures
            final(self)@ == old(self)@,
            commands@ == seq![Command::ResetElapsedTime],
    {
        let mut commands: Vec<Command> = Vec::new();
        commands.push(Command::ResetElapsedTime);
        commands
    }

    /// Takes the new size of the window, neither dimension below one, and
    /// rebuilds the swap chain and views at that size. The device stays as
    /// it is. Before there is a device only the size is stored.
    pub fn on_window_size_changed(&mut self, width: i32, height: i32) -> (commands: Vec<Command>)
        requires
            old(self)@.phase.takes_calls(),
        ensures
            final(self)@ == old(self)@.resize(width, height).0,
            commands@ == old(self)@.resize(width, height).1,
            final(self)@.width == clamp_dimension(width),
            final(self)@.height == clamp_dimension(height),
            width <= 0 ==> final(self)@.width == 1,
            height <= 0 ==> final(self)@.height == 1,
            final(self)@.phase.has_device() == old(self)@.phase.has_device(),
            final(self)@.device_generation == old(self)@.device_generation,
            final(self)@.feature_level == old(self)@.feature_level,
            final(self)@.window == old(self)@.window,
            old(self)@.phase is Ready ==> final(self)@.phase is CreatingSwapChain && commands@
                == seq![Command::ReleaseResources, final(self)@.swap_chain_request()],
            old(self)@.phase is Uninitialized ==> final(self)@.phase is Uninitialized
                && commands@.len() == 0,
            final(self)@.wf(),
    {
        proof {
            use_type_invariant(&*self);
        }
        self.state.width = if width < 1 { 1 } else { width };
        self.state.height = if height < 1 { 1 } else { height };
        self.create_resources()
    }

    /// The size a host gives its window when it has no other wish.
    pub fn get_default_size(&self, width: &mut i32, height: &mut i32)
        ensures
            *final(width) == 800,
            *final(height) == 600,
    {
        *width = 800;
        *height = 600;
    }

    /// Lets go of whatever exists and asks for a new device, at the most
    /// capable level the driver supports.
    fn create_device(&mut self) -> (commands: Vec<Command>)
        ensures
            final(self)@ == old(self)@.create_device().0,
            commands@ == old(self)@.create_device().1,
    {
        proof {
            use_type_invariant(&*self);
        }
        let mut commands: Vec<Command> = Vec::new();
        if self.has_swap_chain() {
            commands.push(Command::ReleaseResources);
        }
        if self.has_device() {
            commands.push(Command::ReleaseDevice);
        }
        commands.push(
            Command::CreateDevice {
                levels: candidate_levels(),
                debug_layer: self.state.debug_layer,
            },
        );
        self.state.phase = Phase::CreatingDevice;
        commands
    }

    /// Takes the outcome of a device's creation: its result code and the
    /// number of the level it was created at. A failure, or a level that
    /// was not on offer, stops the session. Otherwise the device is the
    /// session's, and the swap chain is asked for.
    pub fn device_created(&mut self, status: i32, level_code: u32) -> (result: Result<
        Vec<Command>,
        Fault,
    >)
        requires
            old(self)@.phase is CreatingDevice,
        ensures
            final(self)@ == old(self)@.device_created(status, level_code).0,
            outcome_of(result) == old(self)@.device_created(status, level_code).1,
            result is Err <==> status < 0 || FeatureLevel::level_of(level_code) is None,
            result matches Err(fault) ==> fault == (Fault { stage: Stage::DeviceCreation, status })
                && final(self)@.phase == (Phase::Failed { fault }),
            result matches Ok(commands) ==> commands@ == seq![old(self)@.swap_chain_request()],
            result is Ok ==> final(self)@.phase is CreatingSwapChain,
            result is Ok ==> FeatureLevel::level_of(level_code) == Some(final(self)@.feature_level),
            result is Ok ==> final(self)@.device_generation == next_generation(
                old(self)@.device_generation,
            ),
            final(self)@.wf(),
    {
        proof {
            use_type_invariant(&*self);
        }
        if failed(status) {
            return Err(self.fail(Stage::DeviceCreation, status));
        }
        match FeatureLevel::from_code(level_code) {
            Some(level) => {
                // The device exists from here on.
                self.state.phase = Phase::CreatingSwapChain;
                self.state.feature_level = level;
                self.state.device_generation = self.state.device_generation.wrapping_add(1);
                Ok(self.create_resources())
            },
            None => Err(self.fail(Stage::DeviceCreation, status)),
        }
    }

    /// Asks for the swap chain at the stored size, the first of the three
    /// that depend on it, after letting go of the ones that exist. Nothing
    /// without a device.
    fn create_resources(&mut self) -> (commands: Vec<Command>)
        ensures
            final(self)@ == old(self)@.create_resources().0,
            commands@ == old(self)@.create_resources().1,
    {
        proof {
            use_type_invariant(&*self);
        }
        let mut commands: Vec<Command> = Vec::new();
        if self.has_device() {
            if self.has_swap_chain() {
                commands.push(Command::ReleaseResources);
            }
            commands.push(
                Command::CreateSwapChain {
                    window: self.state.window,
                    width: self.state.width,
                    height: self.state.height,
                },
            );
            self.state.phase = Phase::CreatingSwapChain;
        }
        commands
    }

    /// Takes the result code of the swap chain's creation. A failure stops
    /// the session; otherwise the render-target view is asked for.
    pub fn swap_chain_created(&mut self, status: i32) -> (result: Result<Vec<Command>, Fault>)
        requires
            old(self)@.phase is CreatingSwapChain,
        ensures
            final(self)@ == old(self)@.swap_chain_created(status).0,
            outcome_of(result) == old(self)@.swap_chain_created(status).1,
            result is Err <==> status < 0,
            result matches Err(fault) ==> fault == (Fault {
                stage: Stage::SwapChainCreation,
                status,
            }) && final(self)@.phase == (Phase::Failed { fault }),
            result matches Ok(commands) ==> commands@ == seq![Command::CreateRenderTargetView],
            result is Ok ==> final(self)@.phase is CreatingRenderTargetView,
            final(self)@.wf(),
    {
        proof {
            use_type_invariant(&*self);
        }
        if failed(status) {
            return Err(self.fail(Stage::SwapChainCreation, status));
        }
        self.state.phase = Phase::CreatingRenderTargetView;
        let mut commands: Vec<Command> = Vec::new();
        commands.push(Command::CreateRenderTargetView);
        Ok(commands)
    }

    /// Takes the result code of the render-target view's creation. A
    /// failure stops the session; otherwise the depth-stencil view is asked
    /// for, at the stored size.
    pub fn render_target_view_created(&mut self, status: i32) -> (result: Result<
        Vec<Command>,
        Fault,
    >)
        requires
            old(self)@.phase is CreatingRenderTargetView,
        ensures
            final(self)@ == old(self)@.render_target_view_created(status).0,
            outcome_of(result) == old(self)@.render_target_view_created(status).1,
            result is Err <==> status < 0,
            result matches Err(fault) ==> fault == (Fault {
                stage: Stage::RenderTargetViewCreation,
                status,
            }) && final(self)@.phase == (Phase::Failed { fault }),
            result matches Ok(commands) ==> commands@ == seq![old(self)@.depth_stencil_request()],
            result is Ok ==> final(self)@.phase is CreatingDepthStencilView,
            final(self)@.wf(),
    {
        proof {
            use_type_invariant(&*self);
        }
        if failed(status) {
            return Err(self.fail(Stage::RenderTargetViewCreation, status));
        }
        self.state.phase = Phase::CreatingDepthStencilView;
        let mut commands: Vec<Command> = Vec::new();
        commands.push(
            Command::CreateDepthStencilView {
                width: self.state.width,
                height: self.state.height,
            },
        );
        Ok(commands)
    }

    /// Takes the result code of the depth-stencil view's creation. A failure
    /// stops the session; otherwise everything exists and the session is
    /// ready to render.
    pub fn depth_stencil_view_created(&mut self, status: i32) -> (result: Result<
        Vec<Command>,
        Fault,
    >)
        requires
            old(self)@.phase is CreatingDepthStencilView,
        ensures
            final(self)@ == old(self)@.depth_stencil_view_created(status).0,
            outcome_of(result) == old(self)@.depth_stencil_view_created(status).1,
            result is Err <==> status < 0,
            result matches Err(fault) ==> fault == (Fault {
                stage: Stage::DepthStencilViewCreation,
                status,
            }) && final(self)@.phase == (Phase::Failed { fault }),
            result matches Ok(commands) ==> commands@.len() == 0,
            result is Ok ==> final(self)@.phase is Ready,
            result is Ok ==> final(self)@.surface_generation == next_generation(
                old(self)@.surface_generation,
            ),
            final(self)@.wf(),
    {
        proof {
            use_type_invariant(&*self);
        }
        if failed(status) {
            return Err(self.fail(Stage::DepthStencilViewCreation, status));
        }
        self.state.surface_generation = self.state.surface_generation.wrapping_add(1);
        self.state.phase = Phase::Ready;
        Ok(Vec::new())
    }

    /// The device is gone: everything is let go and built again, as at
    /// initialization.
    fn on_device_lost(&mut self) -> (commands: Vec<Command>)
        ensures
            final(self)@ == old(self)@.create_device().0,
            commands@ == old(self)@.create_device().1,
    {
        self.create_device()
    }

    /// Stops the session on a failure at the given stage.
    fn fail(&mut self, stage: Stage, status: i32) -> (fault: Fault)
        ensures
            fault == (Fault { stage, status }),
            final(self)@ == old(self)@.stop(stage, status).0,
    {
        proof {
            use_type_invariant(&*self);
        }
        let fault = Fault { stage, status };
        self.state.phase = Phase::Failed { fault };
        fault
    }

    /// Whether devices are to be created with the validation layer. It
    /// changes what is reported while developing, never what the session
    /// does.
    pub fn set_debug_layer(&mut self, enabled: bool)
        ensures
            final(self)@ == (Session { debug_layer: enabled, ..old(self)@ }),
    {
        proof {
            use_type_invariant(&*self);
        }
        self.state.debug_layer = enabled;
    }

    /// Everything the session knows, as a value.
    pub fn state(&self) -> (state: Session)
        ensures
            state == self@,
            state.wf(),
    {
        proof {
            use_type_invariant(self);
        }
        self.state
    }

    /// Where the session stands: whether it takes calls, and if not, which
    /// outcome it awaits.
    pub fn phase(&self) -> (phase: Phase)
        ensures
            phase == self@.phase,
    {
        self.state.phase
    }

    /// Whether the device and its context exist.
    pub fn has_device(&self) -> (present: bool)
        ensures
            present == self@.phase.has_device(),
    {
        match self.state.phase {
            Phase::CreatingSwapChain
            | Phase::CreatingRenderTargetView
            | Phase::CreatingDepthStencilView
            | Phase::Ready
            | Phase::Presenting => true,
            _ => false,
        }
    }

    /// Whether the swap chain exists.
    pub fn has_swap_chain(&self) -> (present: bool)
        ensures
            present == self@.phase.has_swap_chain(),
    {
        match self.state.phase {
            Phase::CreatingRenderTargetView
            | Phase::CreatingDepthStencilView
            | Phase::Ready
            | Phase::Presenting => true,
            _ => false,
        }
    }

    /// Whether the device, its context, the swap chain and both views exist.
    pub fn is_ready(&self) -> (ready: bool)
        ensures
            ready == self@.ready(),
    {
        match self.state.phase {
            Phase::Ready | Phase::Presenting => true,
            _ => false,
        }
    }

    /// How many ticks there have been.
    pub fn frame_count(&self) -> (count: u64)
        ensures
            count == self@.frame_count,
    {
        self.state.frame_count
    }

    /// The level the latest device was created at.
    pub fn feature_level(&self) -> (level: FeatureLevel)
        ensures
            level == self@.feature_level,
    {
        self.state.feature_level
    }

    /// The stored width and height of the output, each at least one.
    pub fn output_size(&self) -> (size: (i32, i32))
        ensures
            size == (self@.width, self@.height),
            size.0 >= 1,
            size.1 >= 1,
    {
        proof {
            use_type_invariant(self);
        }
        (self.state.width, self.state.height)
    }
}

} // verus!
