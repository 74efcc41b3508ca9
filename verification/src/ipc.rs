//! Request and response types shared by the window and the privileged helper.
use vstd::prelude::*;

verus! {

/// A scheduler profile, numbered as scx_loader numbers its modes.
#[derive(Debug, Clone, Copy, PartialEq, Eq, Structural)]
pub enum SchedMode {
    Auto,
    Gaming,
    PowerSave,
    LowLatency,
    Server,
}

/// The number scx_loader uses for a mode.
pub open spec fn mode_number(mode: SchedMode) -> u32 {
    match mode {
        SchedMode::Auto => 0,
        SchedMode::Gaming => 1,
        SchedMode::PowerSave => 2,
        SchedMode::LowLatency => 3,
        SchedMode::Server => 4,
    }
}

impl SchedMode {
    /// The number scx_loader uses for this mode.
    pub fn as_raw(self) -> (r: u32)
        ensures
            r == mode_number(self),
    {
        match self {
            SchedMode::Auto => 0,
            SchedMode::Gaming => 1,
            SchedMode::PowerSave => 2,
            SchedMode::LowLatency => 3,
            SchedMode::Server => 4,
        }
    }
}

/// Distinct modes have distinct numbers, and every number is below five.
pub proof fn lemma_mode_number_injective(a: SchedMode, b: SchedMode)
    ensures
        mode_number(a) == mode_number(b) ==> a == b,
        mode_number(a) < 5,
{
}

/// What the window asks of the helper.
#[derive(Debug, Clone, PartialEq, Eq)]
pub enum Request {
    Ping,
    Apply { scheduler: String, mode: SchedMode },
    Disable,
}

/// The helper's answer to one request.
#[derive(Debug, Clone, PartialEq, Eq)]
pub enum Response {
    Success,
    Failure { message: String },
}

/// A request with its text taken as characters.
pub enum RequestView {
    Ping,
    Apply { scheduler: Seq<char>, mode: SchedMode },
    Disable,
}

/// A response with its text taken as characters.
pub enum ResponseView {
    Success,
    Failure { message: Seq<char> },
}

impl View for Request {
    type V = RequestView;

    open spec fn view(&self) -> RequestView {
        match self {
            Request::Ping => RequestView::Ping,
            Request::Apply { scheduler, mode } => RequestView::Apply { scheduler: scheduler@, mode: *mode },
            Request::Disable => RequestView::Disable,
        }
    }
}

impl View for Response {
    type V = ResponseView;

    open spec fn view(&self) -> ResponseView {
        match self {
            Response::Success => ResponseView::Success,
            Response::Failure { message } => ResponseView::Failure { message: message@ },
        }
    }
}

} // verus!
