//! The daemon's decisions: what each request is answered with, and when the
//! serving loop stops.

use vstd::prelude::*;
use crate::config::DaemonConfig;
use crate::llm::{finished, job_of, InferenceJob, JobView, OperationView};
use crate::protocol::{call_of, decode_call, reply_error, reply_ok, Call, CallView, Request, Response, ResponseView};
use crate::text::same_text;

verus! {

/// What serving a request takes: an answer ready now, or a model run first.
pub enum Dispatch {
    Reply(Response),
    Run(InferenceJob),
}

pub enum DispatchView {
    Reply(ResponseView),
    Run(JobView),
}

impl View for Dispatch {
    type V = DispatchView;

    open spec fn view(&self) -> DispatchView {
        match self {
            Dispatch::Reply(r) => DispatchView::Reply(r@),
            Dispatch::Run(j) => DispatchView::Run(j@),
        }
    }
}

pub open spec fn unknown_method_message(method: Seq<char>) -> Seq<char> {
    "Unknown method: "@ + method
}

/// How the daemon serves `req`.
pub open spec fn dispatch_of(req: Request) -> DispatchView {
    match call_of(req) {
        None => DispatchView::Reply(
            ResponseView { result: None, error: Some(unknown_method_message(req.method@)), id: req.id },
        ),
        Some(CallView::Ping) => DispatchView::Reply(
            ResponseView { result: Some("pong"@), error: None, id: req.id },
        ),
        Some(CallView::Shutdown) => DispatchView::Reply(
            ResponseView { result: Some("shutting_down"@), error: None, id: req.id },
        ),
        Some(CallView::Run(op)) => DispatchView::Run(job_of(op)),
    }
}

/// Decides how to serve `req`: `ping` and `shutdown` are answered at once, an
/// unknown method with an error, and every other method by a model run.
pub fn handle_request(req: &Request) -> (r: Dispatch)
    ensures
        r@ == dispatch_of(*req),
{
    match decode_call(req) {
        None => {
            let mut msg = String::from_str("Unknown method: ");
            msg.append(req.method.as_str());
            Dispatch::Reply(reply_error(req.id, msg))
        },
        Some(Call::Ping) => Dispatch::Reply(reply_ok(req.id, String::from_str("pong"))),
        Some(Call::Shutdown) => Dispatch::Reply(reply_ok(req.id, String::from_str("shutting_down"))),
        Some(Call::Run(op)) => Dispatch::Run(op.job()),
    }
}

pub open spec fn outcome_view(o: Result<String, String>) -> Result<Seq<char>, Seq<char>> {
    match o {
        Ok(s) => Ok(s@),
        Err(e) => Err(e@),
    }
}

/// The response to request `id` once its model run `job` ended with `outcome`:
/// the cleaned-up output, or the failure's message.
pub open spec fn completed(id: u64, job: JobView, outcome: Result<Seq<char>, Seq<char>>) -> ResponseView {
    match outcome {
        Ok(raw) => ResponseView { result: Some(finished(job.finish, raw)), error: None, id },
        Err(msg) => ResponseView { result: None, error: Some(msg), id },
    }
}

/// Builds the response to request `id` from the outcome of its model run.
pub fn complete(id: u64, job: &InferenceJob, outcome: &Result<String, String>) -> (r: Response)
    ensures
        r@ == completed(id, job@, outcome_view(*outcome)),
{
    match outcome {
        Ok(raw) => reply_ok(id, job.finish(raw.as_str())),
        Err(msg) => reply_error(id, msg.clone()),
    }
}

/// The response the daemon sends to `req` when its model run, if any, ends with
/// `outcome`.
pub open spec fn answer_of(req: Request, outcome: Result<Seq<char>, Seq<char>>) -> ResponseView {
    match dispatch_of(req) {
        DispatchView::Reply(r) => r,
        DispatchView::Run(job) => completed(req.id, job, outcome),
    }
}

pub open spec fn malformed_message(detail: Seq<char>) -> Seq<char> {
    "Failed to parse request: "@ + detail
}

/// The answer to a line that does not decode as a request; it carries id 0, as
/// no id could be read.
pub fn reject_malformed(detail: &str) -> (r: Response)
    ensures
        r@ == (ResponseView { result: None, error: Some(malformed_message(detail@)), id: 0 }),
{
    let mut msg = String::from_str("Failed to parse request: ");
    msg.append(detail);
    reply_error(0, msg)
}

/// Every request is answered under its own id, with exactly one of a result and an
/// error, whatever its model run gives.
pub proof fn lemma_every_request_answered(req: Request, outcome: Result<Seq<char>, Seq<char>>)
    ensures
        answer_of(req, outcome).id == req.id,
        answer_of(req, outcome).result is Some != answer_of(req, outcome).error is Some,
{
}

/// A request that the client encoded for operation `op` makes the daemon run the
/// same model job that a caller without a daemon runs for `op` itself.
pub proof fn lemma_daemon_runs_local_job(req: Request, op: OperationView)
    requires
        call_of(req) == Some(CallView::Run(op)),
    ensures
        dispatch_of(req) == DispatchView::Run(job_of(op)),
{
}

/// Why the serving loop ends.
#[derive(PartialEq, Eq, Structural, Clone, Copy, Debug)]
pub enum ExitReason {
    /// A `shutdown` request or a signal asked for it.
    Requested,
    /// No request came within the idle timeout.
    Idle,
}

/// What the serving loop does next.
#[derive(PartialEq, Eq, Structural, Clone, Copy, Debug)]
pub enum LoopStep {
    Continue,
    Exit(ExitReason),
}

/// The daemon's loop state. Times are milliseconds of a monotonic clock.
pub struct ServerState {
    shutdown_requested: bool,
    idle_limit_ms: u64,
    last_activity_ms: u64,
}

pub struct ServerView {
    pub shutdown_requested: bool,
    /// Milliseconds without a request before the loop ends; 0 when never.
    pub idle_limit_ms: u64,
    pub last_activity_ms: u64,
}

impl View for ServerState {
    type V = ServerView;

    closed spec fn view(&self) -> ServerView {
        ServerView {
            shutdown_requested: self.shutdown_requested,
            idle_limit_ms: self.idle_limit_ms,
            last_activity_ms: self.last_activity_ms,
        }
    }
}

/// The loop's next step at time `now` in state `s`.
pub open spec fn step_of(s: ServerView, now: u64) -> LoopStep {
    if s.shutdown_requested {
        LoopStep::Exit(ExitReason::Requested)
    } else if s.idle_limit_ms > 0 && now > s.last_activity_ms && now - s.last_activity_ms
        > s.idle_limit_ms {
        LoopStep::Exit(ExitReason::Idle)
    } else {
        LoopStep::Continue
    }
}

/// The state once an exchange has ended: `req` is the decoded request (`None` for
/// a line that did not decode) and `delivered` whether its response was written.
/// Only a delivered answer to `shutdown` asks the loop to end.
pub open spec fn after_exchange(s: ServerView, req: Option<Request>, delivered: bool) -> ServerView {
    let asks = match req {
        Some(r) => r.method@ == "shutdown"@,
        None => false,
    };
    ServerView { shutdown_requested: s.shutdown_requested || (delivered && asks), ..s }
}

impl ServerState {
    /// The state at startup, at time `now`.
    pub fn new(config: &DaemonConfig, now: u64) -> (r: Self)
        ensures
            r@ == (ServerView {
                shutdown_requested: false,
                idle_limit_ms: (config.idle_timeout_minutes * 60000) as u64,
                last_activity_ms: now,
            }),
    {
        ServerState {
            shutdown_requested: false,
            idle_limit_ms: config.idle_timeout_minutes as u64 * 60000,
            last_activity_ms: now,
        }
    }

    /// Notes that a request line arrived at time `now`.
    pub fn record_activity(&mut self, now: u64)
        ensures
            final(self)@ == (ServerView { last_activity_ms: now, ..old(self)@ }),
    {
        self.last_activity_ms = now;
    }

    /// Asks the loop to end (a signal arrived).
    pub fn request_shutdown(&mut self)
        ensures
            final(self)@ == (ServerView { shutdown_requested: true, ..old(self)@ }),
    {
        self.shutdown_requested = true;
    }

    /// Records the end of an exchange.
    pub fn finish_exchange(&mut self, req: &Option<Request>, delivered: bool)
        ensures
            final(self)@ == after_exchange(old(self)@, *req, delivered),
    {
        proof {
            reveal_strlit("shutdown");
        }
        let asks = match req {
            Some(r) => same_text(r.method.as_str(), "shutdown"),
            None => false,
        };
        if delivered && asks {
            self.shutdown_requested = true;
        }
    }

    /// What the loop does next, at time `now`.
    pub fn next_step(&self, now: u64) -> (r: LoopStep)
        ensures
            r == step_of(self@, now),
    {
        if self.shutdown_requested {
            LoopStep::Exit(ExitReason::Requested)
        } else if self.idle_limit_ms > 0 && now > self.last_activity_ms && now
            - self.last_activity_ms > self.idle_limit_ms {
            LoopStep::Exit(ExitReason::Idle)
        } else {
            LoopStep::Continue
        }
    }
}

/// `ping` is answered with `pong` under its own id whatever came before, and a
/// daemon that was serving goes on serving after it.
pub proof fn lemma_ping_pongs(
    s: ServerView,
    req: Request,
    outcome: Result<Seq<char>, Seq<char>>,
    now: u64,
)
    requires
        req.method@ == "ping"@,
        step_of(s, now) == LoopStep::Continue,
    ensures
        answer_of(req, outcome) == (ResponseView { result: Some("pong"@), error: None, id: req.id }),
        step_of(after_exchange(ServerView { last_activity_ms: now, ..s }, Some(req), true), now)
            == LoopStep::Continue,
{
    reveal_strlit("ping");
    reveal_strlit("shutdown");
    assert("ping"@[0] != "shutdown"@[0]);
}

/// `shutdown` is acknowledged, and the loop ends only once that acknowledgement was
/// delivered.
pub proof fn lemma_shutdown_acknowledged_first(
    s: ServerView,
    req: Request,
    outcome: Result<Seq<char>, Seq<char>>,
    now: u64,
)
    requires
        req.method@ == "shutdown"@,
    ensures
        answer_of(req, outcome) == (ResponseView {
            result: Some("shutting_down"@),
            error: None,
            id: req.id,
        }),
        step_of(after_exchange(s, Some(req), true), now) == LoopStep::Exit(ExitReason::Requested),
        after_exchange(s, Some(req), false) == s,
{
    reveal_strlit("ping");
    reveal_strlit("shutdown");
    assert("ping"@.len() == 4);
    assert("shutdown"@.len() == 8);
}

/// With a timeout of `T > 0` minutes, a loop that asked for nothing else ends on its
/// own once more than `T` minutes have passed since the last request; with a timeout
/// of 0 it never ends for idleness.
pub proof fn lemma_idle_timeout(config: DaemonConfig, last: u64, now: u64)
    ensures
        ({
            let s = ServerView {
                shutdown_requested: false,
                idle_limit_ms: (config.idle_timeout_minutes * 60000) as u64,
                last_activity_ms: last,
            };
            &&& config.idle_timeout_minutes > 0 && now > last && now - last
                > config.idle_timeout_minutes * 60000 ==> step_of(s, now) == LoopStep::Exit(
                ExitReason::Idle,
            )
            &&& config.idle_timeout_minutes == 0 ==> step_of(s, now) == LoopStep::Continue
        }),
{
    assert(config.idle_timeout_minutes * 60000 <= u32::MAX * 60000) by (nonlinear_arith);
}

/// A line that does not decode is answered with an error and leaves the loop as
/// it was.
pub proof fn lemma_malformed_harmless(s: ServerView, delivered: bool, now: u64)
    ensures
        after_exchange(s, None, delivered) == s,
        step_of(after_exchange(s, None, delivered), now) == step_of(s, now),
{
}

} // verus!
