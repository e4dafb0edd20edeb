use alfred::client::{encode_call, is_daemon_running, read_response, ClientError, ClientSession};
use alfred::llm::{Finish, Operation};
use alfred::protocol::{decode_call, frame, Call, FrameError, Param, ParamValue, Request, Response};
use alfred::server::{complete, handle_request, Dispatch};

fn param_value(v: &serde_json::Value) -> ParamValue {
    if let Some(s) = v.as_str() {
        ParamValue::Text(s.to_string())
    } else if let Some(n) = v.as_u64() {
        ParamValue::Unsigned(n)
    } else if let Some(items) = v.as_array() {
        ParamValue::List(items.iter().map(|i| i.as_str().map(String::from)).collect())
    } else {
        ParamValue::Other
    }
}

fn wire_request(line: &str) -> Request {
    let v: serde_json::Value = serde_json::from_str(line).unwrap();
    let params = match v.get("params").and_then(|p| p.as_object()) {
        Some(map) => map
            .iter()
            .map(|(k, val)| Param { name: k.clone(), value: param_value(val) })
            .collect(),
        None => Vec::new(),
    };
    Request {
        method: v.get("method").unwrap().as_str().unwrap().to_string(),
        params,
        id: v.get("id").unwrap().as_u64().unwrap(),
    }
}

fn wire_response(r: &Response) -> serde_json::Value {
    let mut m = serde_json::Map::new();
    m.insert(
        "result".to_string(),
        r.result.clone().map(serde_json::Value::String).unwrap_or(serde_json::Value::Null),
    );
    m.insert(
        "error".to_string(),
        r.error.clone().map(serde_json::Value::String).unwrap_or(serde_json::Value::Null),
    );
    m.insert("id".to_string(), serde_json::Value::from(r.id));
    serde_json::Value::Object(m)
}

fn expect(line: &str) -> serde_json::Value {
    serde_json::from_str(line).unwrap()
}

#[test]
fn wire_ping_gets_pong() {
    let req = wire_request(r#"{"method":"ping","params":{},"id":1}"#);
    match handle_request(&req) {
        Dispatch::Reply(r) => {
            assert_eq!(wire_response(&r), expect(r#"{"result":"pong","error":null,"id":1}"#))
        }
        Dispatch::Run(_) => panic!("ping needs no model"),
    }
}

#[test]
fn wire_commit_message_with_loaded_model() {
    let req = wire_request(
        r#"{"method":"generate_commit_message","params":{"diff":"--- a/x\n+++ b/x\n+fn f() {}"},"id":2}"#,
    );
    match handle_request(&req) {
        Dispatch::Run(job) => {
            assert_eq!(job.max_tokens, 100);
            assert_eq!(job.finish, Finish::FirstLine);
            assert!(job.prompt.contains("+fn f() {}"));
            let out = Ok("  feat(x): add f\n\nlonger body".to_string());
            let r = complete(req.id, &job, &out);
            assert_eq!(r.id, 2);
            assert_eq!(r.result.as_deref(), Some("feat(x): add f"));
            assert_eq!(r.error, None);
        }
        Dispatch::Reply(_) => panic!("a commit message needs the model"),
    }
}

#[test]
fn wire_unknown_method_is_error() {
    let req = wire_request(r#"{"method":"bogus","params":{},"id":3}"#);
    match handle_request(&req) {
        Dispatch::Reply(r) => assert_eq!(
            wire_response(&r),
            expect(r#"{"result":null,"error":"Unknown method: bogus","id":3}"#)
        ),
        Dispatch::Run(_) => panic!("unknown method runs nothing"),
    }
}

#[test]
fn shutdown_is_acknowledged() {
    let req = wire_request(r#"{"method":"shutdown","params":{},"id":9}"#);
    match handle_request(&req) {
        Dispatch::Reply(r) => {
            assert_eq!(r.result.as_deref(), Some("shutting_down"));
            assert_eq!(r.id, 9);
        }
        Dispatch::Run(_) => panic!(),
    }
}

#[test]
fn generate_defaults_and_truncates_budget() {
    let req = wire_request(r#"{"method":"generate","params":{},"id":4}"#);
    match decode_call(&req) {
        Some(Call::Run(Operation::Generate { prompt, max_tokens })) => {
            assert_eq!(prompt, "");
            assert_eq!(max_tokens, 256);
        }
        _ => panic!(),
    }
    let req = wire_request(r#"{"method":"generate","params":{"prompt":"hi","max_tokens":4294967302},"id":5}"#);
    match decode_call(&req) {
        Some(Call::Run(Operation::Generate { prompt, max_tokens })) => {
            assert_eq!(prompt, "hi");
            assert_eq!(max_tokens, 6);
        }
        _ => panic!(),
    }
    let req = wire_request(r#"{"method":"generate","params":{"prompt":7,"max_tokens":-1},"id":6}"#);
    match decode_call(&req) {
        Some(Call::Run(Operation::Generate { prompt, max_tokens })) => {
            assert_eq!(prompt, "");
            assert_eq!(max_tokens, 256);
        }
        _ => panic!(),
    }
}

#[test]
fn rebase_commits_keep_only_strings() {
    let req = wire_request(
        r#"{"method":"suggest_rebase_strategy","params":{"commits":["a1 one",3,"b2 two"],"onto":"main"},"id":7}"#,
    );
    match decode_call(&req) {
        Some(Call::Run(Operation::RebaseStrategy { commits, onto })) => {
            assert_eq!(commits, vec!["a1 one".to_string(), "b2 two".to_string()]);
            assert_eq!(onto, "main");
        }
        _ => panic!(),
    }
}

#[test]
fn encoded_calls_decode_to_themselves() {
    let calls = vec![
        Call::Ping,
        Call::Shutdown,
        Call::Run(Operation::Generate { prompt: "p".to_string(), max_tokens: 12 }),
        Call::Run(Operation::CommitMessage { diff: "d".to_string() }),
        Call::Run(Operation::BranchName { description: "x".to_string() }),
        Call::Run(Operation::ConflictResolution {
            file: "f".to_string(),
            ours: "o".to_string(),
            theirs: "t".to_string(),
            base: "b".to_string(),
        }),
        Call::Run(Operation::RebaseStrategy {
            commits: vec!["c1".to_string(), "c2".to_string()],
            onto: "main".to_string(),
        }),
    ];
    for (i, call) in calls.iter().enumerate() {
        let req = encode_call(call, i as u64 + 1);
        assert_eq!(req.id, i as u64 + 1);
        let back = decode_call(&req).unwrap();
        assert_eq!(format!("{:?}", back), format!("{:?}", call));
    }
    let req = encode_call(&calls[5], 1);
    assert_eq!(req.method, "suggest_conflict_resolution");
}

#[test]
fn session_numbers_requests() {
    let mut s = ClientSession::new();
    let a = s.request(&Call::Ping);
    let b = s.request(&Call::Shutdown);
    assert_eq!((a.id, b.id), (1, 2));
    assert_eq!(a.method, "ping");
    assert_eq!(b.method, "shutdown");
    assert!(a.params.is_empty() && b.params.is_empty());
    let g = s.request(&Call::Run(Operation::Generate { prompt: "p".to_string(), max_tokens: 3 }));
    assert_eq!(g.id, 3);
    assert_eq!(g.params.len(), 2);
}

#[test]
fn responses_read_by_client() {
    let ok = Response { result: Some("x".to_string()), error: None, id: 1 };
    assert_eq!(read_response(&ok).unwrap(), "x");
    let err = Response { result: None, error: Some("boom".to_string()), id: 1 };
    match read_response(&err) {
        Err(e @ ClientError::Daemon(_)) => assert_eq!(e.message(), "Daemon error: boom"),
        _ => panic!(),
    }
    let empty = Response { result: None, error: None, id: 1 };
    match read_response(&empty) {
        Err(e @ ClientError::Empty) => assert_eq!(e.message(), "Empty response from daemon"),
        _ => panic!(),
    }
    assert!(is_daemon_running(&Some(ok)));
    assert!(!is_daemon_running(&Some(err)));
    assert!(!is_daemon_running(&None));
}

#[test]
fn framing_rejects_raw_newlines() {
    assert_eq!(frame("{\"a\":1}").unwrap(), "{\"a\":1}\n");
    assert_eq!(frame("a\nb").unwrap_err(), FrameError::EmbeddedNewline);
    assert_eq!(frame("").unwrap(), "\n");
}

#[test]
fn client_error_messages() {
    assert_eq!(ClientError::Unreachable.message(), "Daemon not running");
    assert_eq!(
        ClientError::Transport("reset".to_string()).message(),
        "Failed to talk to daemon: reset"
    );
    assert_eq!(
        ClientError::Malformed("eof".to_string()).message(),
        "Failed to parse daemon response: eof"
    );
}

#[test]
fn daemon_and_local_paths_run_the_same_job() {
    let op = Operation::BranchName { description: "fix login".to_string() };
    let req = encode_call(&Call::Run(op.clone()), 3);
    match handle_request(&req) {
        Dispatch::Run(job) => {
            let local = op.job();
            assert_eq!(job.prompt, local.prompt);
            assert_eq!(job.max_tokens, local.max_tokens);
            assert_eq!(job.finish, local.finish);
        }
        Dispatch::Reply(_) => panic!(),
    }
}

#[test]
fn new_session_can_send() {
    let s = ClientSession::new();
    assert!(s.can_send());
}
