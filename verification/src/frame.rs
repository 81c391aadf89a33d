//! Per-frame decisions of the event loop: when to exit, what to do after a
//! render attempt, and when to refresh the window title.

use vstd::prelude::*;

verus! {

/// Outcome of asking the surface for the next frame, as the render step
/// sees it: either a texture was acquired, or one of the surface errors
/// came back.
#[derive(Clone, Copy, Debug, PartialEq, Eq, Structural)]
pub enum SurfaceStatus {
    /// A texture was acquired and the frame was presented.
    Acquired,
    /// The surface took too long to hand out the next texture.
    Timeout,
    /// The surface no longer matches the window and must be reconfigured
    /// before it can present again.
    Outdated,
    /// The swap chain was lost; the surface must be reconfigured.
    Lost,
    /// The device is out of memory.
    OutOfMemory,
}

/// What the event loop does after a render attempt.
#[derive(Clone, Copy, Debug, PartialEq, Eq, Structural)]
pub enum FrameAction {
    /// The frame was presented; keep going.
    Proceed,
    /// Reconfigure the surface at the current size, then keep going.
    Reconfigure,
    /// Leave the event loop.
    Exit,
    /// Log the error and skip this frame.
    Skip,
}

/// The action owed for each surface status: a lost surface is reconfigured,
/// running out of memory ends the loop, and the transient errors (timeout,
/// outdated) are logged and skipped.
pub open spec fn action_for(status: SurfaceStatus) -> FrameAction {
    match status {
        SurfaceStatus::Acquired => FrameAction::Proceed,
        SurfaceStatus::Timeout => FrameAction::Skip,
        SurfaceStatus::Outdated => FrameAction::Skip,
        SurfaceStatus::Lost => FrameAction::Reconfigure,
        SurfaceStatus::OutOfMemory => FrameAction::Exit,
    }
}

/// Decide what the event loop does after a render attempt ended with
/// `status`.
pub fn after_render(status: &SurfaceStatus) -> (r: FrameAction)
    ensures
        r == action_for(*status),
{
    match status {
        SurfaceStatus::Acquired => FrameAction::Proceed,
        SurfaceStatus::Timeout => FrameAction::Skip,
        SurfaceStatus::Outdated => FrameAction::Skip,
        SurfaceStatus::Lost => FrameAction::Reconfigure,
        SurfaceStatus::OutOfMemory => FrameAction::Exit,
    }
}

/// Decide whether the event loop should end: it ends exactly when the
/// escape key was pressed, the window asked to close, or the window was
/// destroyed.
pub fn should_exit(escape_pressed: bool, close_requested: bool, destroyed: bool) -> (r: bool)
    ensures
        r == (escape_pressed || close_requested || destroyed),
{
    escape_pressed || close_requested || destroyed
}

/// Milliseconds that must have passed since the last title refresh before
/// the window title is rewritten with the current frame rate.
pub const TITLE_REFRESH_MS: u128 = 100;

/// Decide whether the window title is refreshed this frame: it is exactly
/// when more than `TITLE_REFRESH_MS` milliseconds have passed since the
/// last refresh.
pub fn should_refresh_title(elapsed_ms: u128) -> (r: bool)
    ensures
        r == (elapsed_ms > TITLE_REFRESH_MS),
{
    elapsed_ms > TITLE_REFRESH_MS
}

} // verus!
