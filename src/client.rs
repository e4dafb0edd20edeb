//! The client's side of an exchange: numbering requests, encoding calls, and
//! reading the daemon's answer.

use vstd::prelude::*;
use crate::llm::{Operation, OperationView};
use crate::protocol::{
    call_of, lookup, texts_in, Call, CallView, Param, ParamValue, Request, Response,
};
use crate::text::views;

verus! {

/// The method name that carries `call`.
pub open spec fn method_name(call: CallView) -> Seq<char> {
    match call {
        CallView::Ping => "ping"@,
        CallView::Shutdown => "shutdown"@,
        CallView::Run(op) => match op {
            OperationView::Generate { .. } => "generate"@,
            OperationView::CommitMessage { .. } => "generate_commit_message"@,
            OperationView::BranchName { .. } => "suggest_branch_name"@,
            OperationView::ConflictResolution { .. } => "suggest_conflict_resolution"@,
            OperationView::RebaseStrategy { .. } => "suggest_rebase_strategy"@,
        },
    }
}

/// How many parameters the request for `call` carries: one for each field of
/// the operation.
pub open spec fn param_count(call: CallView) -> nat {
    match call {
        CallView::Run(OperationView::Generate { .. }) => 2,
        CallView::Run(OperationView::CommitMessage { .. }) => 1,
        CallView::Run(OperationView::BranchName { .. }) => 1,
        CallView::Run(OperationView::ConflictResolution { .. }) => 4,
        CallView::Run(OperationView::RebaseStrategy { .. }) => 2,
        _ => 0,
    }
}

fn text_param(name: &str, value: &String) -> (r: Param)
    ensures
        r.name@ == name@,
        r.value matches ParamValue::Text(s) && s@ == value@,
{
    Param { name: String::from_str(name), value: ParamValue::Text(value.clone()) }
}

fn list_of(items: &Vec<String>) -> (r: Vec<Option<String>>)
    ensures
        texts_in(r@) == views(items@),
{
    let mut out: Vec<Option<String>> = Vec::new();
    let mut i: usize = 0;
    while i < items.len()
        invariant
            i <= items@.len(),
            texts_in(out@) == views(items@.subrange(0, i as int)),
        decreases items.len() - i,
    {
        let s = items[i].clone();
        proof {
            assert(out@.push(Some(s)).drop_last() =~= out@);
            assert(views(items@.subrange(0, i + 1)) =~= views(items@.subrange(0, i as int)).push(
                s@,
            ));
        }
        out.push(Some(s));
        i += 1;
    }
    assert(items@.subrange(0, i as int) =~= items@);
    out
}

/// The method names differ from one another.
proof fn lemma_method_names_distinct()
    ensures
        "ping"@ != "shutdown"@,
        "ping"@ != "generate"@,
        "ping"@ != "generate_commit_message"@,
        "ping"@ != "suggest_branch_name"@,
        "ping"@ != "suggest_conflict_resolution"@,
        "ping"@ != "suggest_rebase_strategy"@,
        "shutdown"@ != "generate"@,
        "shutdown"@ != "generate_commit_message"@,
        "shutdown"@ != "suggest_branch_name"@,
        "shutdown"@ != "suggest_conflict_resolution"@,
        "shutdown"@ != "suggest_rebase_strategy"@,
        "generate"@ != "generate_commit_message"@,
        "generate"@ != "suggest_branch_name"@,
        "generate"@ != "suggest_conflict_resolution"@,
        "generate"@ != "suggest_rebase_strategy"@,
        "generate_commit_message"@ != "suggest_branch_name"@,
        "generate_commit_message"@ != "suggest_conflict_resolution"@,
        "generate_commit_message"@ != "suggest_rebase_strategy"@,
        "suggest_branch_name"@ != "suggest_conflict_resolution"@,
        "suggest_branch_name"@ != "suggest_rebase_strategy"@,
        "suggest_conflict_resolution"@ != "suggest_rebase_strategy"@,
{
    reveal_strlit("ping");
    assert("ping"@.len() == 4);
    assert("ping"@[0] == 'p');
    reveal_strlit("shutdown");
    assert("shutdown"@.len() == 8);
    assert("shutdown"@[0] == 's');
    reveal_strlit("generate");
    assert("generate"@.len() == 8);
    assert("generate"@[0] == 'g');
    reveal_strlit("generate_commit_message");
    assert("generate_commit_message"@.len() == 23);
    assert("generate_commit_message"@[0] == 'g');
    reveal_strlit("suggest_branch_name");
    assert("suggest_branch_name"@.len() == 19);
    assert("suggest_branch_name"@[0] == 's');
    reveal_strlit("suggest_conflict_resolution");
    assert("suggest_conflict_resolution"@.len() == 27);
    assert("suggest_conflict_resolution"@[0] == 's');
    reveal_strlit("suggest_rebase_strategy");
    assert("suggest_rebase_strategy"@.len() == 23);
    assert("suggest_rebase_strategy"@[0] == 's');
}

/// The request that carries `call` under the id `id`: one parameter per field,
/// from which the daemon reads back exactly `call`.
pub fn encode_call(call: &Call, id: u64) -> (r: Request)
    ensures
        r.id == id,
        r.method@ == method_name(call@),
        r.params@.len() == param_count(call@),
        call_of(r) == Some(call@),
{
    proof {
        lemma_method_names_distinct();
    }
    match call {
        Call::Ping => Request { method: String::from_str("ping"), params: Vec::new(), id },
        Call::Shutdown => Request { method: String::from_str("shutdown"), params: Vec::new(), id },
        Call::Run(op) => match op {
            Operation::Generate { prompt, max_tokens } => {
                let mut params: Vec<Param> = Vec::new();
                params.push(text_param("prompt", prompt));
                params.push(
                    Param {
                        name: String::from_str("max_tokens"),
                        value: ParamValue::Unsigned(*max_tokens as u64),
                    },
                );
                proof {
                    reveal_strlit("prompt");
                    reveal_strlit("max_tokens");
                    assert("prompt"@[0] != "max_tokens"@[0]);
                    assert(params@.drop_first()[0] == params@[1]);
                    let m = *max_tokens;
                    assert((m as u64) as u32 == m) by (bit_vector);
                    assert(lookup(params@, "max_tokens"@) == lookup(params@.drop_first(), "max_tokens"@));
                }
                Request { method: String::from_str("generate"), params, id }
            },
            Operation::CommitMessage { diff } => {
                let mut params: Vec<Param> = Vec::new();
                params.push(text_param("diff", diff));
                Request { method: String::from_str("generate_commit_message"), params, id }
            },
            Operation::BranchName { description } => {
                let mut params: Vec<Param> = Vec::new();
                params.push(text_param("description", description));
                Request { method: String::from_str("suggest_branch_name"), params, id }
            },
            Operation::ConflictResolution { file, ours, theirs, base } => {
                let mut params: Vec<Param> = Vec::new();
                params.push(text_param("file", file));
                params.push(text_param("ours", ours));
                params.push(text_param("theirs", theirs));
                params.push(text_param("base", base));
                proof {
                    reveal_strlit("file");
                    reveal_strlit("ours");
                    reveal_strlit("theirs");
                    reveal_strlit("base");
                    let ps = params@;
                    assert("file"@[0] != "ours"@[0]);
                    assert("file"@[0] != "base"@[0]);
                    assert("ours"@[0] != "base"@[0]);
                    assert(ps.drop_first()[0] == ps[1]);
                    assert(ps.drop_first().drop_first()[0] == ps[2]);
                    assert(ps.drop_first().drop_first().drop_first()[0] == ps[3]);
                    assert(lookup(ps, "ours"@) == lookup(ps.drop_first(), "ours"@));
                    let p1 = ps.drop_first();
                    let p2 = p1.drop_first();
                    let p3 = p2.drop_first();
                    assert(lookup(ps, "theirs"@) == lookup(p1, "theirs"@));
                    assert(lookup(p1, "theirs"@) == lookup(p2, "theirs"@));
                    assert(lookup(ps, "base"@) == lookup(p1, "base"@));
                    assert(lookup(p1, "base"@) == lookup(p2, "base"@));
                    assert(lookup(p2, "base"@) == lookup(p3, "base"@));
                }
                Request { method: String::from_str("suggest_conflict_resolution"), params, id }
            },
            Operation::RebaseStrategy { commits, onto } => {
                let mut params: Vec<Param> = Vec::new();
                params.push(
                    Param { name: String::from_str("commits"), value: ParamValue::List(list_of(commits)) },
                );
                params.push(text_param("onto", onto));
                proof {
                    reveal_strlit("commits");
                    reveal_strlit("onto");
                    assert("commits"@[0] != "onto"@[0]);
                    assert(params@.drop_first()[0] == params@[1]);
                    assert(lookup(params@, "onto"@) == lookup(params@.drop_first(), "onto"@));
                }
                Request { method: String::from_str("suggest_rebase_strategy"), params, id }
            },
        },
    }
}

/// Why a call into the daemon failed.
#[derive(Clone, Debug)]
pub enum ClientError {
    /// No daemon answered on the port.
    Unreachable,
    /// The connection failed while sending or receiving.
    Transport(String),
    /// The daemon's line could not be decoded.
    Malformed(String),
    /// The daemon answered with an error.
    Daemon(String),
    /// The daemon answered with neither a result nor an error.
    Empty,
}

pub enum ClientErrorView {
    Unreachable,
    Transport(Seq<char>),
    Malformed(Seq<char>),
    Daemon(Seq<char>),
    Empty,
}

impl View for ClientError {
    type V = ClientErrorView;

    open spec fn view(&self) -> ClientErrorView {
        match self {
            ClientError::Unreachable => ClientErrorView::Unreachable,
            ClientError::Transport(s) => ClientErrorView::Transport(s@),
            ClientError::Malformed(s) => ClientErrorView::Malformed(s@),
            ClientError::Daemon(s) => ClientErrorView::Daemon(s@),
            ClientError::Empty => ClientErrorView::Empty,
        }
    }
}

pub open spec fn error_message(e: ClientErrorView) -> Seq<char> {
    match e {
        ClientErrorView::Unreachable => "Daemon not running"@,
        ClientErrorView::Transport(s) => "Failed to talk to daemon: "@ + s,
        ClientErrorView::Malformed(s) => "Failed to parse daemon response: "@ + s,
        ClientErrorView::Daemon(s) => "Daemon error: "@ + s,
        ClientErrorView::Empty => "Empty response from daemon"@,
    }
}

impl ClientError {
    /// The human-readable cause.
    pub fn message(&self) -> (r: String)
        ensures
            r@ == error_message(self@),
    {
        match self {
            ClientError::Unreachable => String::from_str("Daemon not running"),
            ClientError::Transport(s) => {
                let mut m = String::from_str("Failed to talk to daemon: ");
                m.append(s.as_str());
                m
            },
            ClientError::Malformed(s) => {
                let mut m = String::from_str("Failed to parse daemon response: ");
                m.append(s.as_str());
                m
            },
            ClientError::Daemon(s) => {
                let mut m = String::from_str("Daemon error: ");
                m.append(s.as_str());
                m
            },
            ClientError::Empty => String::from_str("Empty response from daemon"),
        }
    }
}

/// What the caller gets from a response: the daemon's error when it sent one,
/// else its result, and a failure when it sent neither.
pub open spec fn outcome_of(resp: Response) -> Result<Seq<char>, ClientErrorView> {
    match resp.error {
        Some(e) => Err(ClientErrorView::Daemon(e@)),
        None => match resp.result {
            Some(r) => Ok(r@),
            None => Err(ClientErrorView::Empty),
        },
    }
}

pub open spec fn result_view(r: Result<String, ClientError>) -> Result<Seq<char>, ClientErrorView> {
    match r {
        Ok(s) => Ok(s@),
        Err(e) => Err(e@),
    }
}

/// Reads the outcome of a call from the daemon's response.
pub fn read_response(resp: &Response) -> (r: Result<String, ClientError>)
    ensures
        result_view(r) == outcome_of(*resp),
{
    match &resp.error {
        Some(e) => Err(ClientError::Daemon(e.clone())),
        None => match &resp.result {
            Some(s) => Ok(s.clone()),
            None => Err(ClientError::Empty),
        },
    }
}

/// The client's half of one connection: the id of the last request it sent.
pub struct ClientSession {
    last_id: u64,
}

impl ClientSession {
    pub closed spec fn last_id(&self) -> u64 {
        self.last_id
    }

    /// A session that has sent nothing yet.
    pub fn new() -> (r: Self)
        ensures
            r.last_id() == 0,
    {
        ClientSession { last_id: 0 }
    }

    /// Whether another request can be numbered.
    pub fn can_send(&self) -> (r: bool)
        ensures
            r == (self.last_id() < u64::MAX),
    {
        self.last_id < u64::MAX
    }

    /// The next request of this session: it carries `call` under the next id.
    pub fn request(&mut self, call: &Call) -> (r: Request)
        requires
            old(self).last_id() < u64::MAX,
        ensures
            final(self).last_id() == old(self).last_id() + 1,
            r.id == final(self).last_id(),
            r.method@ == method_name(call@),
            r.params@.len() == param_count(call@),
            call_of(r) == Some(call@),
    {
        self.last_id = self.last_id + 1;
        encode_call(call, self.last_id)
    }
}

/// Whether a daemon is running, judged by the answer to the handshake `ping`
/// (`None` when no answer came).
pub fn is_daemon_running(handshake: &Option<Response>) -> (r: bool)
    ensures
        r == (match handshake {
            Some(resp) => outcome_of(*resp) is Ok,
            None => false,
        }),
{
    match handshake {
        Some(resp) => read_response(resp).is_ok(),
        None => false,
    }
}

} // verus!
