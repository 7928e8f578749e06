//! Events crossing the core's boundary.
//!
//! Inbound: the platform's window events, reduced to the discriminated
//! union the core consumes. Outbound: application signals raised by the
//! overlay, and the status line shown by it. The rendering backend's
//! per-frame report arrives as a [`SurfaceStatus`] and is classified into a
//! [`FrameOutcome`] by the coordinator.

use vstd::prelude::*;
use crate::frac::Frac;

verus! {

/// A mouse button as reported by the platform. Only the primary (left)
/// button carries semantics in this core; the rest are ignored by design.
#[derive(Clone, Copy, Debug, PartialEq, Eq, Structural)]
pub enum MouseButton {
    Left,
    Right,
    Middle,
    Other(u16),
}

/// The window events the core consumes, reduced to plain values.
/// Unrecognized platform events map to `Unrecognized` and are no-ops.
#[derive(Clone, Copy, Debug, PartialEq, Eq, Structural)]
pub enum WindowEvent {
    CursorMoved { x: Frac, y: Frac },
    MouseInput { button: MouseButton, pressed: bool },
    Resized { width: u32, height: u32, scale_factor: Frac },
    ScaleFactorChanged { width: u32, height: u32, scale_factor: Frac },
    CloseRequested,
    Unrecognized,
}

/// Outgoing application signals, fired by matched keyboard shortcuts;
/// at most one per shortcut per tick.
#[derive(Clone, Copy, Debug, PartialEq, Eq, Structural)]
pub enum UserEvent {
    Quit,
    NewFile,
    OpenFile,
    SaveFile,
    SaveFileAs,
}

/// The status line surfaced to the overlay.
#[derive(Clone, Debug, PartialEq, Eq)]
pub enum AppStatus {
    Info(String),
}

/// What the rendering backend reported for one presentation attempt.
#[derive(Clone, Copy, Debug, PartialEq, Eq, Structural)]
pub enum SurfaceStatus {
    /// The frame reached the screen.
    Presented,
    /// The swap chain surface was lost and must be rebuilt.
    Lost,
    /// The surface no longer matches the window and must be rebuilt.
    Outdated,
    /// Acquiring the next frame timed out.
    Timeout,
    /// The backend ran out of memory.
    OutOfMemory,
}

/// Why a frame was skipped but the session may continue.
#[derive(Clone, Copy, Debug, PartialEq, Eq, Structural)]
pub enum TransientReason {
    Timeout,
}

/// Why the session cannot continue.
#[derive(Clone, Copy, Debug, PartialEq, Eq, Structural)]
pub enum FatalReason {
    OutOfMemory,
}

/// The classified result of one render attempt; drives the frame state
/// machine and is never persisted.
#[derive(Clone, Copy, Debug, PartialEq, Eq, Structural)]
pub enum FrameOutcome {
    Presented,
    NeedsReconfigure,
    Transient(TransientReason),
    Fatal(FatalReason),
}

/// The classification a backend report receives: recoverable surface
/// conditions trigger reconfiguration, timeouts are transient, memory
/// exhaustion is fatal, success is success.
pub open spec fn classify_spec(status: SurfaceStatus) -> FrameOutcome {
    match status {
        SurfaceStatus::Presented => FrameOutcome::Presented,
        SurfaceStatus::Lost => FrameOutcome::NeedsReconfigure,
        SurfaceStatus::Outdated => FrameOutcome::NeedsReconfigure,
        SurfaceStatus::Timeout => FrameOutcome::Transient(TransientReason::Timeout),
        SurfaceStatus::OutOfMemory => FrameOutcome::Fatal(FatalReason::OutOfMemory),
    }
}

/// Classifies a backend report into the outcome the coordinator acts on.
pub fn classify(status: SurfaceStatus) -> (outcome: FrameOutcome)
    ensures
        outcome == classify_spec(status),
{
    match status {
        SurfaceStatus::Presented => FrameOutcome::Presented,
        SurfaceStatus::Lost => FrameOutcome::NeedsReconfigure,
        SurfaceStatus::Outdated => FrameOutcome::NeedsReconfigure,
        SurfaceStatus::Timeout => FrameOutcome::Transient(TransientReason::Timeout),
        SurfaceStatus::OutOfMemory => FrameOutcome::Fatal(FatalReason::OutOfMemory),
    }
}

} // verus!
