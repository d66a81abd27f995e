//! What holds of the session whatever the host reports.
//!
//! Each statement is over the state machine of `session`, which `Game` runs
//! step for step.

use vstd::prelude::*;
use crate::command::{clear_commands, present_on_vsync, Command};
use crate::feature_level::FeatureLevel;
use crate::session::{clamp_dimension, next_frame_count, next_generation, Phase, Session};
use crate::status::{is_device_loss, is_failure, Fault, Stage};

verus! {

/// While the session takes calls, the device, its context, the swap chain
/// and both views exist all together or not at all.
pub proof fn law_all_or_nothing_at_rest(s: Session)
    requires
        s.phase.takes_calls(),
    ensures
        s.phase.has_device() == s.phase.has_swap_chain(),
        s.phase.has_device() == s.phase.has_render_target_view(),
        s.phase.has_device() == s.phase.has_depth_stencil_view(),
        s.ready() <==> s.phase is Ready,
{
}

/// Nothing exists without what it is built from: no depth-stencil view
/// without the render-target view, no view without the swap chain, no swap
/// chain without the device.
pub proof fn law_nothing_outlives_its_base(phase: Phase)
    ensures
        phase.has_depth_stencil_view() ==> phase.has_render_target_view(),
        phase.has_render_target_view() ==> phase.has_swap_chain(),
        phase.has_swap_chain() ==> phase.has_device(),
{
}

/// A stored dimension is never below one, and is the given one wherever
/// that is at least one.
pub proof fn law_dimensions_clamped(value: i32)
    ensures
        clamp_dimension(value) >= 1,
        value <= 0 ==> clamp_dimension(value) == 1,
        value >= 1 ==> clamp_dimension(value) == value,
{
}

/// Every step leads from a well-formed session to a well-formed one.
pub proof fn law_steps_keep_well_formed(
    s: Session,
    window: usize,
    width: i32,
    height: i32,
    status: i32,
    level_code: u32,
)
    requires
        s.wf(),
    ensures
        Session::initial().wf(),
        s.initialize(window, width, height).0.wf(),
        s.resize(width, height).0.wf(),
        s.render().0.wf(),
        s.tick().0.wf(),
        s.device_created(status, level_code).0.wf(),
        s.swap_chain_created(status).0.wf(),
        s.render_target_view_created(status).0.wf(),
        s.depth_stencil_view_created(status).0.wf(),
        s.presented(status).0.wf(),
{
}

/// Before the timer's first step a frame is never rendered: no command is
/// asked for and the session stays as it is, whatever exists.
pub proof fn law_no_frame_before_first_step(s: Session)
    requires
        s.frame_count == 0,
    ensures
        s.render() == (s, Seq::<Command>::empty()),
        s.tick().1 == seq![Command::AdvanceTimer],
        s.tick().0 == (Session { frame_count: 1, ..s }),
{
}

/// Nothing is asked of the graphics runtime for a frame while the device,
/// its context, the swap chain or a view is missing.
pub proof fn law_no_frame_without_resources(s: Session)
    requires
        !s.phase.has_device() || !s.phase.has_swap_chain() || !s.phase.has_render_target_view()
            || !s.phase.has_depth_stencil_view(),
    ensures
        s.clear() == Seq::<Command>::empty(),
        s.render() == (s, Seq::<Command>::empty()),
        s.tick().1 == seq![Command::AdvanceTimer],
{
}

/// A frame, where there is one, is the four preparing commands followed by
/// one presentation, and leaves the session waiting for its result.
pub proof fn law_frame_is_clear_then_present(s: Session)
    requires
        s.ready(),
        s.frame_count > 0,
    ensures
        s.render().1 == clear_commands(s.width, s.height).push(present_on_vsync()),
        s.render().0.phase is Presenting,
        s.tick().1 == seq![Command::AdvanceTimer] + s.render().1,
{
}

/// A change of size stores the clamped size and touches neither the device
/// nor the feature level: all that is asked for is to let go of the swap
/// chain and views and to build the swap chain anew.
pub proof fn law_resize_keeps_device(s: Session, width: i32, height: i32)
    requires
        s.phase.takes_calls(),
    ensures
        ({
            let (next, commands) = s.resize(width, height);
            &&& next.width == clamp_dimension(width)
            &&& next.height == clamp_dimension(height)
            &&& next.phase.has_device() == s.phase.has_device()
            &&& next.device_generation == s.device_generation
            &&& next.feature_level == s.feature_level
            &&& forall|c: Command| #[trigger]
                commands.contains(c) ==> c is ReleaseResources || c is CreateSwapChain
        }),
{
    let (next, commands) = s.resize(width, height);
    assert forall|c: Command| #[trigger] commands.contains(c) implies c is ReleaseResources
        || c is CreateSwapChain by {
        let i = choose|i: int| 0 <= i < commands.len() && commands[i] == c;
        assert(commands[i] == c);
    }
}

/// The feature level is set when a device is created and at no other time.
pub proof fn law_feature_level_set_with_device_only(
    s: Session,
    window: usize,
    width: i32,
    height: i32,
    status: i32,
)
    ensures
        s.initialize(window, width, height).0.feature_level == s.feature_level,
        s.resize(width, height).0.feature_level == s.feature_level,
        s.render().0.feature_level == s.feature_level,
        s.tick().0.feature_level == s.feature_level,
        s.swap_chain_created(status).0.feature_level == s.feature_level,
        s.render_target_view_created(status).0.feature_level == s.feature_level,
        s.depth_stencil_view_created(status).0.feature_level == s.feature_level,
        s.presented(status).0.feature_level == s.feature_level,
{
}

/// Once a device is there and nothing fails, three reports lead to a ready
/// session: swap chain, render-target view and depth-stencil view are asked
/// for in that order, each once, the views at the stored size.
pub proof fn law_resources_build_in_order(
    s: Session,
    swap_chain: i32,
    render_target: i32,
    depth_stencil: i32,
)
    requires
        !is_failure(swap_chain),
        !is_failure(render_target),
        !is_failure(depth_stencil),
    ensures
        ({
            let (a, first) = s.swap_chain_created(swap_chain);
            let (b, second) = a.render_target_view_created(render_target);
            let (c, third) = b.depth_stencil_view_created(depth_stencil);
            &&& first == Ok::<Seq<Command>, Fault>(seq![Command::CreateRenderTargetView])
            &&& a.phase is CreatingRenderTargetView
            &&& second == Ok::<Seq<Command>, Fault>(seq![s.depth_stencil_request()])
            &&& b.phase is CreatingDepthStencilView
            &&& third == Ok::<Seq<Command>, Fault>(Seq::empty())
            &&& c == (Session {
                phase: Phase::Ready,
                surface_generation: next_generation(s.surface_generation),
                ..s
            })
        }),
{
}

/// The swap chain and views come together or the session stops: a failure
/// of any of the three stops the session at the one that failed, and
/// nothing more is asked for.
pub proof fn law_no_partial_resources(s: Session, status: i32)
    requires
        is_failure(status),
    ensures
        s.swap_chain_created(status) == s.stop(Stage::SwapChainCreation, status),
        s.render_target_view_created(status) == s.stop(Stage::RenderTargetViewCreation, status),
        s.depth_stencil_view_created(status) == s.stop(Stage::DepthStencilViewCreation, status),
{
}

/// A session that stops hands back the fault, with the stage and the code,
/// and keeps it; it is not ready and takes no call.
pub proof fn law_stop_keeps_the_fault(s: Session, stage: Stage, status: i32)
    ensures
        s.stop(stage, status).1 == Err::<Seq<Command>, Fault>(Fault { stage, status }),
        s.stop(stage, status).0.phase == (Phase::Failed { fault: Fault { stage, status } }),
        !s.stop(stage, status).0.ready(),
        !s.stop(stage, status).0.phase.takes_calls(),
{
}

/// When a presentation reports the device removed or reset, the device and
/// then the swap chain and views are each rebuilt exactly once, and the
/// session takes no call until that is done. The tick after it renders a
/// frame as usual.
pub proof fn law_device_loss_rebuilds_once(
    s: Session,
    lost: i32,
    created: i32,
    level_code: u32,
    swap_chain: i32,
    render_target: i32,
    depth_stencil: i32,
)
    requires
        s.wf(),
        s.phase is Presenting,
        is_device_loss(lost),
        Session::device_accepted(created, level_code),
        !is_failure(swap_chain),
        !is_failure(render_target),
        !is_failure(depth_stencil),
    ensures
        ({
            let (recovering, first) = s.presented(lost);
            let (with_device, second) = recovering.device_created(created, level_code);
            let (a, third) = with_device.swap_chain_created(swap_chain);
            let (b, fourth) = a.render_target_view_created(render_target);
            let (recovered, fifth) = b.depth_stencil_view_created(depth_stencil);
            &&& first == Ok::<Seq<Command>, Fault>(
                seq![Command::ReleaseResources, Command::ReleaseDevice, s.device_request()],
            )
            &&& second == Ok::<Seq<Command>, Fault>(seq![s.swap_chain_request()])
            &&& third == Ok::<Seq<Command>, Fault>(seq![Command::CreateRenderTargetView])
            &&& fourth == Ok::<Seq<Command>, Fault>(seq![s.depth_stencil_request()])
            &&& fifth == Ok::<Seq<Command>, Fault>(Seq::empty())
            &&& !recovering.phase.takes_calls() && !with_device.phase.takes_calls()
            &&& !a.phase.takes_calls() && !b.phase.takes_calls()
            &&& recovered == (Session {
                phase: Phase::Ready,
                feature_level: FeatureLevel::level_of(level_code)->0,
                device_generation: next_generation(s.device_generation),
                surface_generation: next_generation(s.surface_generation),
                ..s
            })
            &&& recovered.device_generation != s.device_generation
            &&& recovered.surface_generation != s.surface_generation
            &&& recovered.tick().1 == seq![Command::AdvanceTimer] + clear_commands(
                s.width,
                s.height,
            ).push(present_on_vsync())
            &&& recovered.tick().0.phase is Presenting
        }),
{
    let (recovering, first) = s.presented(lost);
    let (with_device, second) = recovering.device_created(created, level_code);
    let (a, third) = with_device.swap_chain_created(swap_chain);
    let (b, fourth) = a.render_target_view_created(render_target);
    let (recovered, fifth) = b.depth_stencil_view_created(depth_stencil);
    assert(first->Ok_0 =~= seq![
        Command::ReleaseResources,
        Command::ReleaseDevice,
        s.device_request(),
    ]);
    assert(second->Ok_0 =~= seq![s.swap_chain_request()]);
    assert(recovered.tick().1 =~= seq![Command::AdvanceTimer] + clear_commands(
        s.width,
        s.height,
    ).push(present_on_vsync()));
}

/// A presentation that fails with any code but the two of a lost device
/// stops the session, with a fault that names the presentation and the
/// code; nothing more is asked for.
pub proof fn law_other_presentation_failure_is_fatal(s: Session, status: i32)
    requires
        is_failure(status),
        !is_device_loss(status),
    ensures
        s.presented(status).1 == Err::<Seq<Command>, Fault>(
            Fault { stage: Stage::Presentation, status },
        ),
        s.presented(status).0.phase == (Phase::Failed {
            fault: Fault { stage: Stage::Presentation, status },
        }),
        !s.presented(status).0.phase.takes_calls(),
{
}

/// A stopped session takes no call, holds nothing and draws nothing.
pub proof fn law_failed_is_final(s: Session)
    requires
        s.phase is Failed,
    ensures
        !s.phase.takes_calls(),
        !s.phase.has_device(),
        s.clear() == Seq::<Command>::empty(),
{
}

/// A full initialization that meets no failure ends ready to render, at the
/// clamped size, with one more device and one more set of views than
/// before.
pub proof fn law_initialize_reaches_ready(
    s: Session,
    window: usize,
    width: i32,
    height: i32,
    created: i32,
    level_code: u32,
    swap_chain: i32,
    render_target: i32,
    depth_stencil: i32,
)
    requires
        s.phase.takes_calls(),
        Session::device_accepted(created, level_code),
        !is_failure(swap_chain),
        !is_failure(render_target),
        !is_failure(depth_stencil),
    ensures
        ({
            let (starting, first) = s.initialize(window, width, height);
            let (with_device, second) = starting.device_created(created, level_code);
            let (a, third) = with_device.swap_chain_created(swap_chain);
            let (b, fourth) = a.render_target_view_created(render_target);
            let (ready, fifth) = b.depth_stencil_view_created(depth_stencil);
            &&& first == s.release_all().push(s.device_request())
            &&& second == Ok::<Seq<Command>, Fault>(
                seq![
                    Command::CreateSwapChain {
                        window,
                        width: clamp_dimension(width),
                        height: clamp_dimension(height),
                    },
                ],
            )
            &&& third == Ok::<Seq<Command>, Fault>(seq![Command::CreateRenderTargetView])
            &&& fourth == Ok::<Seq<Command>, Fault>(
                seq![
                    Command::CreateDepthStencilView {
                        width: clamp_dimension(width),
                        height: clamp_dimension(height),
                    },
                ],
            )
            &&& fifth == Ok::<Seq<Command>, Fault>(Seq::empty())
            &&& ready == (Session {
                phase: Phase::Ready,
                window,
                width: clamp_dimension(width),
                height: clamp_dimension(height),
                feature_level: FeatureLevel::level_of(level_code)->0,
                device_generation: next_generation(s.device_generation),
                surface_generation: next_generation(s.surface_generation),
                ..s
            })
        }),
{
    let (starting, first) = s.initialize(window, width, height);
    let (with_device, second) = starting.device_created(created, level_code);
    assert(second->Ok_0 =~= seq![
        Command::CreateSwapChain {
            window,
            width: clamp_dimension(width),
            height: clamp_dimension(height),
        },
    ]);
}

/// The frame count goes up by one with every tick, rendered or not, and
/// once above zero never returns to it.
pub proof fn law_tick_counts_frames(s: Session)
    ensures
        s.tick().0.frame_count == next_frame_count(s.frame_count),
        s.tick().0.frame_count > 0,
        s.frame_count < u64::MAX ==> s.tick().0.frame_count == s.frame_count + 1,
{
}

/// Whether devices are created with the validation layer changes no step
/// of the session: the same reports lead through the same phases to the
/// same faults, and a tick asks for the same frame.
pub proof fn law_debug_layer_changes_no_outcome(s: Session, status: i32, level_code: u32)
    ensures
        ({
            let t = Session { debug_layer: !s.debug_layer, ..s };
            &&& t.device_created(status, level_code).1 == s.device_created(status, level_code).1
            &&& t.swap_chain_created(status).1 == s.swap_chain_created(status).1
            &&& t.render_target_view_created(status).1 == s.render_target_view_created(status).1
            &&& t.depth_stencil_view_created(status).1 == s.depth_stencil_view_created(status).1
            &&& (t.presented(status).1 is Err) == (s.presented(status).1 is Err)
            &&& t.presented(status).1 is Err ==> t.presented(status).1 == s.presented(status).1
            &&& t.device_created(status, level_code).0.phase == s.device_created(
                status,
                level_code,
            ).0.phase
            &&& t.swap_chain_created(status).0.phase == s.swap_chain_created(status).0.phase
            &&& t.render_target_view_created(status).0.phase == s.render_target_view_created(
                status,
            ).0.phase
            &&& t.depth_stencil_view_created(status).0.phase == s.depth_stencil_view_created(
                status,
            ).0.phase
            &&& t.presented(status).0.phase == s.presented(status).0.phase
            &&& t.tick() == (Session { debug_layer: !s.debug_layer, ..s.tick().0 }, s.tick().1)
        }),
{
}

} // verus!
