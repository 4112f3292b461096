//! Which hooks a request fires, as a function of what happens to it.
//!
//! This is the lifecycle with everything but the order of events taken away:
//! how the handler's future resolved, then what the body produced, frame
//! after frame. The contracts of `ResponseFuture::poll` and of
//! `ResponseBody::poll_frame` are stated over the functions of this module,
//! and the laws of `crate::laws` are proved of them.

use super::FailedAt;
use vstd::prelude::*;

verus! {

/// A hook of `Callbacks` that fires after `prepare`.
#[derive(Clone, Copy, Debug, PartialEq, Eq, Structural)]
pub enum Hook {
    /// `on_response`.
    OnResponse,
    /// `on_eos`.
    OnEos,
    /// `on_failure`, with where the failure was observed.
    OnFailure(FailedAt),
}

/// How the handler's future resolved.
#[derive(Clone, Copy, Debug, PartialEq, Eq, Structural)]
pub enum Outcome {
    /// With a response whose classification is known from its head.
    Ready,
    /// With a response whose classification waits for the end of the stream.
    RequiresEos,
    /// With an error.
    Error,
}

/// What a body produced when it was polled.
#[derive(Clone, Copy, Debug, PartialEq, Eq, Structural)]
pub enum FrameKind {
    /// A chunk of data.
    Data,
    /// The trailers.
    Trailers,
    /// An error, in place of a chunk.
    BodyError,
    /// An error, in place of the trailers.
    TrailersError,
    /// Nothing more: the stream has ended.
    End,
}

impl Hook {
    /// Whether the hook ends a request's accounting: every hook but
    /// `on_response` does.
    pub open spec fn is_terminal(self) -> bool {
        !(self is OnResponse)
    }
}

impl FrameKind {
    /// Whether the frame ends the stream: every frame but a chunk does.
    pub open spec fn is_terminal(self) -> bool {
        !(self is Data)
    }

    /// Whether the frame is an error.
    pub open spec fn is_error(self) -> bool {
        self is BodyError || self is TrailersError
    }
}

/// The hook that fires when the handler's future resolves.
pub open spec fn completion_hook(outcome: Outcome) -> Hook {
    match outcome {
        Outcome::Ready => Hook::OnResponse,
        Outcome::RequiresEos => Hook::OnResponse,
        Outcome::Error => Hook::OnFailure(FailedAt::Response),
    }
}

/// Whether the body of a request with this outcome still owes a terminal
/// hook.
pub open spec fn awaits_eos_from(outcome: Outcome) -> bool {
    outcome is RequiresEos
}

/// The hook that fires on a frame, where one does: none once the terminal
/// hook has fired or where none is owed, and none on a chunk.
pub open spec fn frame_hook(awaits_eos: bool, frame: FrameKind) -> Option<Hook> {
    if !awaits_eos {
        None
    } else {
        match frame {
            FrameKind::Data => None,
            FrameKind::Trailers => Some(Hook::OnEos),
            FrameKind::End => Some(Hook::OnEos),
            FrameKind::BodyError => Some(Hook::OnFailure(FailedAt::Body)),
            FrameKind::TrailersError => Some(Hook::OnFailure(FailedAt::Trailers)),
        }
    }
}

/// Whether a terminal hook is still owed after a frame.
pub open spec fn awaits_eos_after(awaits_eos: bool, frame: FrameKind) -> bool {
    awaits_eos && frame is Data
}

/// The hooks that a body fires on `frames`, in order.
pub open spec fn body_hooks(awaits_eos: bool, frames: Seq<FrameKind>) -> Seq<Hook>
    decreases frames.len(),
{
    if frames.len() == 0 {
        Seq::empty()
    } else {
        let rest = body_hooks(awaits_eos_after(awaits_eos, frames[0]), frames.skip(1));
        match frame_hook(awaits_eos, frames[0]) {
            Some(hook) => seq![hook] + rest,
            None => rest,
        }
    }
}

/// Whether a terminal hook is still owed after `frames`: whether one was
/// owed before them and none of them ended the stream.
pub open spec fn awaits_eos_after_all(awaits_eos: bool, frames: Seq<FrameKind>) -> bool {
    awaits_eos && first_terminal(frames) == frames.len()
}

/// The hooks that a request fires after `prepare`, in order: the one of the
/// handler's future, then those of the body, where there is a body.
pub open spec fn request_hooks(outcome: Outcome, frames: Seq<FrameKind>) -> Seq<Hook> {
    if outcome is Error {
        seq![completion_hook(outcome)]
    } else {
        seq![completion_hook(outcome)] + body_hooks(awaits_eos_from(outcome), frames)
    }
}

/// How often `hook` occurs in `hooks`.
pub open spec fn count_hook(hooks: Seq<Hook>, hook: Hook) -> nat
    decreases hooks.len(),
{
    if hooks.len() == 0 {
        0
    } else {
        count_hook(hooks.drop_last(), hook) + if hooks.last() == hook {
            1nat
        } else {
            0nat
        }
    }
}

/// How many terminal hooks occur in `hooks`.
pub open spec fn count_terminal(hooks: Seq<Hook>) -> nat
    decreases hooks.len(),
{
    if hooks.len() == 0 {
        0
    } else {
        count_terminal(hooks.drop_last()) + if hooks.last().is_terminal() {
            1nat
        } else {
            0nat
        }
    }
}

/// The place of the first terminal frame in `frames`, or their number where
/// none is terminal.
pub open spec fn first_terminal(frames: Seq<FrameKind>) -> int
    decreases frames.len(),
{
    if frames.len() == 0 {
        0
    } else if frames[0].is_terminal() {
        0
    } else {
        1 + first_terminal(frames.skip(1))
    }
}

} // verus!
