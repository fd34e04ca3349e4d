//! The host shell's decisions: one pump iteration's event classified into
//! the action the shell takes, and the follow-up after a frame.
//!
//! The shell itself owns the window and runs the event pump; for every
//! event it builds a `ShellEvent` from what it saw, notes whether the event
//! addressed the session's own window, and executes the returned action.

use vstd::prelude::*;

use crate::session::{FramePlan, SurfaceError};

verus! {

/// One pump event, stripped to what the dispatch reads. Sizes are in
/// physical pixels; a scale-factor change carries the window's new inner
/// size. Keyboard input other than a pressed Escape, and every event kind
/// not named here, is `Other`.
#[derive(Clone, Copy, PartialEq, Eq, Structural, Debug)]
pub enum ShellEvent {
    CloseRequested,
    EscapePressed,
    Resized { width: u32, height: u32 },
    ScaleFactorChanged { width: u32, height: u32 },
    RedrawRequested,
    RedrawEventsCleared,
    Other,
}

/// What the shell does with one event.
#[derive(Clone, Copy, PartialEq, Eq, Structural, Debug)]
pub enum ShellAction {
    /// Request termination of the pump.
    Exit,
    /// Hand the carried size to the session's `resize`.
    Resize { width: u32, height: u32 },
    /// Run the update hook, then render one frame for the session.
    RenderFrame,
    /// Ask the window for another redraw (continuous rendering).
    RequestRedraw,
    /// Do nothing.
    Ignore,
}

/// The action one event calls for. Dispatch is keyed by window identity:
/// window events and redraw requests act only when they address the
/// session's own window. Only the end of a redraw batch acts regardless,
/// by requesting the next redraw.
pub open spec fn dispatch_spec(event: ShellEvent, for_session_window: bool) -> ShellAction {
    match event {
        ShellEvent::CloseRequested => if for_session_window {
            ShellAction::Exit
        } else {
            ShellAction::Ignore
        },
        ShellEvent::EscapePressed => if for_session_window {
            ShellAction::Exit
        } else {
            ShellAction::Ignore
        },
        ShellEvent::Resized { width, height } => if for_session_window {
            ShellAction::Resize { width, height }
        } else {
            ShellAction::Ignore
        },
        ShellEvent::ScaleFactorChanged { width, height } => if for_session_window {
            ShellAction::Resize { width, height }
        } else {
            ShellAction::Ignore
        },
        ShellEvent::RedrawRequested => if for_session_window {
            ShellAction::RenderFrame
        } else {
            ShellAction::Ignore
        },
        ShellEvent::RedrawEventsCleared => ShellAction::RequestRedraw,
        ShellEvent::Other => ShellAction::Ignore,
    }
}

/// Classifies one pump event into the shell's action: close requests and a
/// pressed Escape end the pump, resize and scale-factor changes hand their
/// size to the session, a redraw request renders a frame, and the end of a
/// redraw batch requests the next redraw; everything else — and anything
/// addressed to another window — is ignored.
pub fn dispatch(event: &ShellEvent, for_session_window: bool) -> (action: ShellAction)
    ensures
        action == dispatch_spec(*event, for_session_window),
{
    match *event {
        ShellEvent::CloseRequested | ShellEvent::EscapePressed => {
            if for_session_window {
                ShellAction::Exit
            } else {
                ShellAction::Ignore
            }
        },
        ShellEvent::Resized { width, height } => {
            if for_session_window {
                ShellAction::Resize { width, height }
            } else {
                ShellAction::Ignore
            }
        },
        ShellEvent::ScaleFactorChanged { width, height } => {
            if for_session_window {
                ShellAction::Resize { width, height }
            } else {
                ShellAction::Ignore
            }
        },
        ShellEvent::RedrawRequested => {
            if for_session_window {
                ShellAction::RenderFrame
            } else {
                ShellAction::Ignore
            }
        },
        ShellEvent::RedrawEventsCleared => ShellAction::RequestRedraw,
        ShellEvent::Other => ShellAction::Ignore,
    }
}

/// What the shell does after one frame.
#[derive(Clone, Copy, PartialEq, Eq, Structural, Debug)]
pub enum RenderFollowUp {
    /// The frame was presented; carry on.
    Continue,
    /// Reconfigure by resizing the session to its current size; the frame
    /// is dropped.
    ReconfigureCurrentSize,
    /// Fatal: request termination with a non-success exit.
    Terminate,
    /// Transient: log a warning, skip the frame, carry on.
    WarnAndContinue,
}

/// The follow-up one render outcome calls for: a lost or outdated surface
/// is recovered by reconfiguring to the current size, memory exhaustion
/// ends the host, a timeout is only warned about, and a presented frame
/// needs nothing.
pub open spec fn render_follow_up_spec(outcome: Result<FramePlan, SurfaceError>) -> RenderFollowUp {
    match outcome {
        Ok(_) => RenderFollowUp::Continue,
        Err(SurfaceError::Lost) => RenderFollowUp::ReconfigureCurrentSize,
        Err(SurfaceError::Outdated) => RenderFollowUp::ReconfigureCurrentSize,
        Err(SurfaceError::OutOfMemory) => RenderFollowUp::Terminate,
        Err(SurfaceError::Timeout) => RenderFollowUp::WarnAndContinue,
    }
}

/// Classifies one render outcome into the shell's follow-up.
pub fn render_follow_up(outcome: &Result<FramePlan, SurfaceError>) -> (follow: RenderFollowUp)
    ensures
        follow == render_follow_up_spec(*outcome),
{
    match outcome {
        Ok(_) => RenderFollowUp::Continue,
        Err(SurfaceError::Lost) | Err(SurfaceError::Outdated) => {
            RenderFollowUp::ReconfigureCurrentSize
        },
        Err(SurfaceError::OutOfMemory) => RenderFollowUp::Terminate,
        Err(SurfaceError::Timeout) => RenderFollowUp::WarnAndContinue,
    }
}

} // verus!
