use scx_synse::ipc::{Request, Response, SchedMode};
use scx_synse::protocol::{after_read, invalid_request, plan_request, respond, Job, LoopControl, Plan, ReadEvent};

#[test]
fn ping_is_answered_at_once() {
    assert_eq!(plan_request(Request::Ping), Plan::Reply(Response::Success));
}

#[test]
fn apply_and_disable_go_to_the_executor() {
    assert_eq!(
        plan_request(Request::Apply { scheduler: "scx_lavd".into(), mode: SchedMode::Gaming }),
        Plan::Run(Job::Apply { scheduler: "scx_lavd".into(), mode: SchedMode::Gaming })
    );
    assert_eq!(plan_request(Request::Disable), Plan::Run(Job::Disable));
}

#[test]
fn outcomes_become_responses() {
    assert_eq!(respond(Ok(())), Response::Success);
    assert_eq!(
        respond(Err("switch_scheduler: denied".into())),
        Response::Failure { message: "switch_scheduler: denied".into() }
    );
    assert_eq!(
        invalid_request("bad bytes"),
        Response::Failure { message: "invalid request: bad bytes".into() }
    );
}

#[test]
fn loop_stops_on_eof_and_timeout_and_aborts_on_error() {
    assert_eq!(after_read(ReadEvent::Frame), LoopControl::Serve);
    assert_eq!(after_read(ReadEvent::Closed), LoopControl::Stop);
    assert_eq!(after_read(ReadEvent::IdleTimeout), LoopControl::Stop);
    assert_eq!(after_read(ReadEvent::Failed), LoopControl::Abort);
}
