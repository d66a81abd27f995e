//! Result codes reported by the graphics runtime and what the session makes
//! of them.

use vstd::prelude::*;

verus! {

/// The runtime took the device away (hexadecimal 887A0005 as a signed code).
pub const DEVICE_REMOVED: i32 = -2005270523;

/// The runtime reset the device (hexadecimal 887A0007 as a signed code).
pub const DEVICE_RESET: i32 = -2005270521;

/// The step of the session's work at which a failure was reported.
#[derive(Clone, Copy, Debug, PartialEq, Eq)]
pub enum Stage {
    DeviceCreation,
    SwapChainCreation,
    RenderTargetViewCreation,
    DepthStencilViewCreation,
    Presentation,
}

/// An unrecoverable failure: where it happened and the code that came with it.
#[derive(Clone, Copy, Debug, PartialEq, Eq)]
pub struct Fault {
    pub stage: Stage,
    pub status: i32,
}

/// What a presentation's result code means for the session.
#[derive(Clone, Copy, Debug, PartialEq, Eq)]
pub enum PresentStatus {
    /// The frame reached the screen.
    Shown,
    /// The device is gone; it and everything built on it must be rebuilt.
    DeviceLost,
    /// Any other failure. Nothing in a ready session accounts for it.
    Failed,
}

/// A result code stands for failure exactly when it is negative.
pub open spec fn is_failure(status: i32) -> bool {
    status < 0
}

/// The two codes that report a lost device.
pub open spec fn is_device_loss(status: i32) -> bool {
    status == DEVICE_REMOVED || status == DEVICE_RESET
}

/// The class of a presentation's result code.
pub open spec fn classify_presentation(status: i32) -> PresentStatus {
    if is_device_loss(status) {
        PresentStatus::DeviceLost
    } else if is_failure(status) {
        PresentStatus::Failed
    } else {
        PresentStatus::Shown
    }
}

/// Whether a result code stands for failure.
pub fn failed(status: i32) -> (r: bool)
    ensures
        r == is_failure(status),
{
    status < 0
}

/// Whether a result code reports a lost device.
pub fn device_lost(status: i32) -> (r: bool)
    ensures
        r == is_device_loss(status),
{
    status == DEVICE_REMOVED || status == DEVICE_RESET
}

/// Sorts a presentation's result code into one of the three outcomes.
pub fn classify(status: i32) -> (outcome: PresentStatus)
    ensures
        outcome == classify_presentation(status),
        outcome is DeviceLost <==> status == DEVICE_REMOVED || status == DEVICE_RESET,
        outcome is Shown <==> status >= 0,
{
    if device_lost(status) {
        PresentStatus::DeviceLost
    } else if failed(status) {
        PresentStatus::Failed
    } else {
        PresentStatus::Shown
    }
}

/// Every result code falls into exactly one class: shown if it is no
/// failure, device lost if it is one of the two codes, failed otherwise.
/// Both device-loss codes are failures themselves.
pub proof fn law_presentation_classes(status: i32)
    ensures
        classify_presentation(status) is Shown <==> !is_failure(status),
        classify_presentation(status) is DeviceLost <==> is_device_loss(status),
        classify_presentation(status) is Failed <==> is_failure(status) && !is_device_loss(status),
        is_device_loss(status) ==> is_failure(status),
{
}

} // verus!
