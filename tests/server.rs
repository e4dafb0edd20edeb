use alfred::config::DaemonConfig;
use alfred::protocol::{Request, Response};
use alfred::server::{complete, handle_request, reject_malformed, Dispatch, ExitReason, LoopStep, ServerState};
use alfred::llm::generate;

fn req(method: &str, id: u64) -> Request {
    Request { method: method.to_string(), params: Vec::new(), id }
}

fn config(minutes: u32) -> DaemonConfig {
    DaemonConfig { port: 7654, idle_timeout_minutes: minutes, auto_start: false }
}

#[test]
fn idle_timeout_ends_loop() {
    let s = ServerState::new(&config(1), 1_000);
    assert_eq!(s.next_step(1_000 + 60_000), LoopStep::Continue);
    assert_eq!(s.next_step(1_000 + 60_001), LoopStep::Exit(ExitReason::Idle));
}

#[test]
fn zero_timeout_never_idles() {
    let s = ServerState::new(&config(0), 0);
    assert_eq!(s.next_step(u64::MAX), LoopStep::Continue);
}

#[test]
fn activity_resets_idle_clock() {
    let mut s = ServerState::new(&config(2), 0);
    s.record_activity(100_000);
    assert_eq!(s.next_step(200_000), LoopStep::Continue);
    assert_eq!(s.next_step(220_001), LoopStep::Exit(ExitReason::Idle));
}

#[test]
fn largest_timeout_does_not_overflow() {
    let s = ServerState::new(&config(u32::MAX), 0);
    assert_eq!(s.next_step(u32::MAX as u64 * 60_000), LoopStep::Continue);
    assert_eq!(s.next_step(u32::MAX as u64 * 60_000 + 1), LoopStep::Exit(ExitReason::Idle));
}

#[test]
fn shutdown_ends_loop_after_delivery() {
    let mut s = ServerState::new(&config(30), 0);
    let r = req("shutdown", 5);
    s.finish_exchange(&Some(r.clone()), false);
    assert_eq!(s.next_step(1), LoopStep::Continue);
    s.finish_exchange(&Some(r), true);
    assert_eq!(s.next_step(1), LoopStep::Exit(ExitReason::Requested));
}

#[test]
fn signal_ends_loop() {
    let mut s = ServerState::new(&config(0), 0);
    s.request_shutdown();
    assert_eq!(s.next_step(0), LoopStep::Exit(ExitReason::Requested));
}

#[test]
fn ping_after_history_still_pongs() {
    let mut s = ServerState::new(&config(30), 0);
    for (i, m) in ["bogus", "generate", "ping"].iter().enumerate() {
        s.record_activity(i as u64);
        s.finish_exchange(&Some(req(m, i as u64)), true);
    }
    assert_eq!(s.next_step(10), LoopStep::Continue);
    match handle_request(&req("ping", 42)) {
        Dispatch::Reply(r) => {
            assert_eq!(r.result.as_deref(), Some("pong"));
            assert_eq!(r.error, None);
            assert_eq!(r.id, 42);
        }
        Dispatch::Run(_) => panic!(),
    }
}

#[test]
fn malformed_line_keeps_serving() {
    let mut s = ServerState::new(&config(30), 0);
    let r: Response = reject_malformed("EOF while parsing");
    assert_eq!(r.error.as_deref(), Some("Failed to parse request: EOF while parsing"));
    assert_eq!(r.result, None);
    assert_eq!(r.id, 0);
    s.finish_exchange(&None, true);
    assert_eq!(s.next_step(5), LoopStep::Continue);
}

#[test]
fn failed_inference_is_error_response() {
    let job = generate("x", 5);
    let r = complete(8, &job, &Err("Model not loaded".to_string()));
    assert_eq!(r.result, None);
    assert_eq!(r.error.as_deref(), Some("Model not loaded"));
    assert_eq!(r.id, 8);
    let r = complete(8, &job, &Ok("  hello \n".to_string()));
    assert_eq!(r.result.as_deref(), Some("hello"));
}

#[test]
fn every_method_answers_with_its_id() {
    for (i, m) in ["ping", "shutdown", "nope", "generate"].iter().enumerate() {
        let r = req(m, 100 + i as u64);
        let resp = match handle_request(&r) {
            Dispatch::Reply(resp) => resp,
            Dispatch::Run(job) => complete(r.id, &job, &Ok("out".to_string())),
        };
        assert_eq!(resp.id, 100 + i as u64);
        assert!(resp.result.is_some() != resp.error.is_some());
    }
}
