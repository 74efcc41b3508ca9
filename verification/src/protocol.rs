//! The helper's side of the protocol: what it does after each read, which
//! privileged job a request calls for, and how each outcome is answered.
use vstd::prelude::*;
use crate::ipc::{Request, RequestView, Response, ResponseView, SchedMode};
use crate::text::concat;

verus! {

/// How long the helper waits for a request before it exits, in seconds.
pub const DEFAULT_IDLE_TIMEOUT_SECS: u64 = 300;

/// What came of one wait for a frame.
#[derive(Debug, Clone, Copy, PartialEq, Eq, Structural)]
pub enum ReadEvent {
    /// A whole frame arrived.
    Frame,
    /// The input ended before a frame began.
    Closed,
    /// Reading failed.
    Failed,
    /// Nothing arrived within the idle timeout.
    IdleTimeout,
}

/// What the helper's loop does next.
#[derive(Debug, Clone, Copy, PartialEq, Eq, Structural)]
pub enum LoopControl {
    /// Decode the frame and answer it.
    Serve,
    /// Leave the loop successfully.
    Stop,
    /// Leave the loop with the read error.
    Abort,
}

/// A frame is served; the end of input and the idle watchdog end the session
/// successfully; a failed read ends it with an error.
pub fn after_read(ev: ReadEvent) -> (c: LoopControl)
    ensures
        c == (match ev {
            ReadEvent::Frame => LoopControl::Serve,
            ReadEvent::Closed => LoopControl::Stop,
            ReadEvent::IdleTimeout => LoopControl::Stop,
            ReadEvent::Failed => LoopControl::Abort,
        }),
{
    match ev {
        ReadEvent::Frame => LoopControl::Serve,
        ReadEvent::Closed => LoopControl::Stop,
        ReadEvent::IdleTimeout => LoopControl::Stop,
        ReadEvent::Failed => LoopControl::Abort,
    }
}

/// A privileged side effect that a request calls for.
#[derive(Debug, Clone, PartialEq, Eq)]
pub enum Job {
    /// Switch to `scheduler` in `mode` and keep that choice for the next boot.
    Apply { scheduler: String, mode: SchedMode },
    /// Stop the running scheduler.
    Disable,
}

/// What a request calls for: an answer right away, or a job first.
#[derive(Debug, Clone, PartialEq, Eq)]
pub enum Plan {
    Reply(Response),
    Run(Job),
}

/// A ping is answered at once with success; an apply or a disable request is
/// handed to the executor with its arguments unchanged.
pub fn plan_request(req: Request) -> (p: Plan)
    ensures
        match req@ {
            RequestView::Ping => p == Plan::Reply(Response::Success),
            RequestView::Apply { scheduler, mode } => p matches Plan::Run(Job::Apply { scheduler: s, mode: m }) && s@
                == scheduler && m == mode,
            RequestView::Disable => p == Plan::Run(Job::Disable),
        },
{
    match req {
        Request::Ping => Plan::Reply(Response::Success),
        Request::Apply { scheduler, mode } => Plan::Run(Job::Apply { scheduler, mode }),
        Request::Disable => Plan::Run(Job::Disable),
    }
}

/// A job that succeeded is answered with success; one that failed, with its
/// error text.
pub fn respond(outcome: Result<(), String>) -> (r: Response)
    ensures
        match outcome {
            Ok(()) => r@ == ResponseView::Success,
            Err(msg) => r@ == (ResponseView::Failure { message: msg@ }),
        },
{
    match outcome {
        Ok(()) => Response::Success,
        Err(message) => Response::Failure { message },
    }
}

/// The prefix of the answer to a frame that does not decode into a request.
pub const INVALID_REQUEST_PREFIX: &'static str = "invalid request: ";

/// The answer to a frame that does not decode into a request: a failure whose
/// text is the decoder's complaint after "invalid request: ".
pub fn invalid_request(detail: &str) -> (r: Response)
    ensures
        r@ == (ResponseView::Failure { message: INVALID_REQUEST_PREFIX@ + detail@ }),
{
    Response::Failure { message: concat(INVALID_REQUEST_PREFIX, detail) }
}

} // verus!
