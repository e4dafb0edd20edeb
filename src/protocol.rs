//! The request/response envelope spoken between client and daemon, one JSON
//! object per line.

use vstd::prelude::*;
use crate::llm::{Operation, OperationView};
use crate::text::{contains, contains_text, same_text, views};

verus! {

/// A parameter value, as far as the daemon reads it.
#[derive(Clone, Debug)]
pub enum ParamValue {
    Text(String),
    /// A whole number in `0..2^64`.
    Unsigned(u64),
    /// An array; each element is its text when it is a string.
    List(Vec<Option<String>>),
    /// Anything else (null, a boolean, a negative or fractional number, an object).
    Other,
}

/// One named parameter of a request.
#[derive(Clone, Debug)]
pub struct Param {
    pub name: String,
    pub value: ParamValue,
}

/// A call from the client: the method, its parameters, and the id that pairs the
/// response with it.
#[derive(Clone, Debug)]
pub struct Request {
    pub method: String,
    pub params: Vec<Param>,
    pub id: u64,
}

/// The daemon's answer; exactly one of `result` and `error` is set.
#[derive(Clone, Debug)]
pub struct Response {
    pub result: Option<String>,
    pub error: Option<String>,
    pub id: u64,
}

pub struct ResponseView {
    pub result: Option<Seq<char>>,
    pub error: Option<Seq<char>>,
    pub id: u64,
}

pub open spec fn opt_view(o: Option<String>) -> Option<Seq<char>> {
    match o {
        Some(s) => Some(s@),
        None => None,
    }
}

impl View for Response {
    type V = ResponseView;

    open spec fn view(&self) -> ResponseView {
        ResponseView { result: opt_view(self.result), error: opt_view(self.error), id: self.id }
    }
}

/// A successful response.
pub fn reply_ok(id: u64, text: String) -> (r: Response)
    ensures
        r@ == (ResponseView { result: Some(text@), error: None, id }),
{
    Response { result: Some(text), error: None, id }
}

/// A failed response.
pub fn reply_error(id: u64, message: String) -> (r: Response)
    ensures
        r@ == (ResponseView { result: None, error: Some(message@), id }),
{
    Response { result: None, error: Some(message), id }
}

/// The value of the first parameter named `name`.
pub open spec fn lookup(params: Seq<Param>, name: Seq<char>) -> Option<ParamValue>
    decreases params.len(),
{
    if params.len() == 0 {
        None
    } else if params[0].name@ == name {
        Some(params[0].value)
    } else {
        lookup(params.drop_first(), name)
    }
}

/// A text parameter; empty when absent or not text.
pub open spec fn text_param(params: Seq<Param>, name: Seq<char>) -> Seq<char> {
    match lookup(params, name) {
        Some(ParamValue::Text(s)) => s@,
        _ => seq![],
    }
}

/// A whole-number parameter; `default` when absent or not a whole number.
pub open spec fn count_param(params: Seq<Param>, name: Seq<char>, default: u64) -> u64 {
    match lookup(params, name) {
        Some(ParamValue::Unsigned(n)) => n,
        _ => default,
    }
}

/// The texts among `items`, in order.
pub open spec fn texts_in(items: Seq<Option<String>>) -> Seq<Seq<char>>
    decreases items.len(),
{
    if items.len() == 0 {
        seq![]
    } else {
        let rest = texts_in(items.drop_last());
        match items.last() {
            Some(s) => rest.push(s@),
            None => rest,
        }
    }
}

/// The string elements of an array parameter; empty when absent or not an array.
pub open spec fn texts_param(params: Seq<Param>, name: Seq<char>) -> Seq<Seq<char>> {
    match lookup(params, name) {
        Some(ParamValue::List(items)) => texts_in(items@),
        _ => seq![],
    }
}

fn find_param<'a>(params: &'a Vec<Param>, name: &str) -> (r: Option<&'a ParamValue>)
    ensures
        match r {
            Some(v) => lookup(params@, name@) == Some(*v),
            None => lookup(params@, name@) is None,
        },
{
    let n = params.len();
    let mut i: usize = 0;
    assert(params@.subrange(0, n as int) =~= params@);
    while i < n
        invariant
            n == params@.len(),
            i <= n,
            lookup(params@, name@) == lookup(params@.subrange(i as int, n as int), name@),
        decreases n - i,
    {
        assert(params@.subrange(i as int, n as int)[0] == params@[i as int]);
        if same_text(params[i].name.as_str(), name) {
            return Some(&params[i].value);
        }
        assert(params@.subrange(i as int, n as int).drop_first() =~= params@.subrange(
            i + 1,
            n as int,
        ));
        i += 1;
    }
    None
}

/// The text parameter `name`, or an empty string.
pub fn get_text(params: &Vec<Param>, name: &str) -> (r: String)
    ensures
        r@ == text_param(params@, name@),
{
    match find_param(params, name) {
        Some(ParamValue::Text(s)) => s.clone(),
        _ => String::new(),
    }
}

/// The whole-number parameter `name`, or `default`.
pub fn get_count(params: &Vec<Param>, name: &str, default: u64) -> (r: u64)
    ensures
        r == count_param(params@, name@, default),
{
    match find_param(params, name) {
        Some(ParamValue::Unsigned(n)) => *n,
        _ => default,
    }
}

fn texts_of(items: &Vec<Option<String>>) -> (r: Vec<String>)
    ensures
        views(r@) == texts_in(items@),
{
    let mut out: Vec<String> = Vec::new();
    let mut i: usize = 0;
    while i < items.len()
        invariant
            i <= items@.len(),
            views(out@) == texts_in(items@.subrange(0, i as int)),
        decreases items.len() - i,
    {
        assert(items@.subrange(0, i + 1).drop_last() =~= items@.subrange(0, i as int));
        match &items[i] {
            Some(s) => {
                let t = s.clone();
                assert(views(out@.push(t)) =~= views(out@).push(t@));
                out.push(t);
            },
            None => {},
        }
        i += 1;
    }
    assert(items@.subrange(0, i as int) =~= items@);
    out
}

/// The string elements of the array parameter `name`, or none.
pub fn get_texts(params: &Vec<Param>, name: &str) -> (r: Vec<String>)
    ensures
        views(r@) == texts_param(params@, name@),
{
    match find_param(params, name) {
        Some(ParamValue::List(items)) => texts_of(items),
        _ => Vec::new(),
    }
}

/// What a request asks of the daemon.
#[derive(Clone, Debug)]
pub enum Call {
    Ping,
    Shutdown,
    Run(Operation),
}

pub enum CallView {
    Ping,
    Shutdown,
    Run(OperationView),
}

impl View for Call {
    type V = CallView;

    open spec fn view(&self) -> CallView {
        match self {
            Call::Ping => CallView::Ping,
            Call::Shutdown => CallView::Shutdown,
            Call::Run(op) => CallView::Run(op@),
        }
    }
}

/// Token budget of a `generate` request that names none.
pub const DEFAULT_MAX_TOKENS: u64 = 256;

/// The call that a request names, or `None` for an unknown method.
pub open spec fn call_of(req: Request) -> Option<CallView> {
    let m = req.method@;
    let ps = req.params@;
    if m == "ping"@ {
        Some(CallView::Ping)
    } else if m == "shutdown"@ {
        Some(CallView::Shutdown)
    } else if m == "generate"@ {
        Some(
            CallView::Run(
                OperationView::Generate {
                    prompt: text_param(ps, "prompt"@),
                    max_tokens: count_param(ps, "max_tokens"@, DEFAULT_MAX_TOKENS) as u32,
                },
            ),
        )
    } else if m == "generate_commit_message"@ {
        Some(CallView::Run(OperationView::CommitMessage { diff: text_param(ps, "diff"@) }))
    } else if m == "suggest_branch_name"@ {
        Some(
            CallView::Run(
                OperationView::BranchName { description: text_param(ps, "description"@) },
            ),
        )
    } else if m == "suggest_conflict_resolution"@ {
        Some(
            CallView::Run(
                OperationView::ConflictResolution {
                    file: text_param(ps, "file"@),
                    ours: text_param(ps, "ours"@),
                    theirs: text_param(ps, "theirs"@),
                    base: text_param(ps, "base"@),
                },
            ),
        )
    } else if m == "suggest_rebase_strategy"@ {
        Some(
            CallView::Run(
                OperationView::RebaseStrategy {
                    commits: texts_param(ps, "commits"@),
                    onto: text_param(ps, "onto"@),
                },
            ),
        )
    } else {
        None
    }
}

pub open spec fn opt_call_view(c: Option<Call>) -> Option<CallView> {
    match c {
        Some(c) => Some(c@),
        None => None,
    }
}

/// Reads the call out of a request. A missing or ill-typed parameter reads as an
/// empty text, an empty list, or the default token budget.
pub fn decode_call(req: &Request) -> (r: Option<Call>)
    ensures
        opt_call_view(r) == call_of(*req),
{
    let m = req.method.as_str();
    let ps = &req.params;
    if same_text(m, "ping") {
        Some(Call::Ping)
    } else if same_text(m, "shutdown") {
        Some(Call::Shutdown)
    } else if same_text(m, "generate") {
        let prompt = get_text(ps, "prompt");
        let max_tokens = get_count(ps, "max_tokens", DEFAULT_MAX_TOKENS) as u32;
        Some(Call::Run(Operation::Generate { prompt, max_tokens }))
    } else if same_text(m, "generate_commit_message") {
        Some(Call::Run(Operation::CommitMessage { diff: get_text(ps, "diff") }))
    } else if same_text(m, "suggest_branch_name") {
        Some(Call::Run(Operation::BranchName { description: get_text(ps, "description") }))
    } else if same_text(m, "suggest_conflict_resolution") {
        Some(
            Call::Run(
                Operation::ConflictResolution {
                    file: get_text(ps, "file"),
                    ours: get_text(ps, "ours"),
                    theirs: get_text(ps, "theirs"),
                    base: get_text(ps, "base"),
                },
            ),
        )
    } else if same_text(m, "suggest_rebase_strategy") {
        Some(
            Call::Run(
                Operation::RebaseStrategy {
                    commits: get_texts(ps, "commits"),
                    onto: get_text(ps, "onto"),
                },
            ),
        )
    } else {
        None
    }
}

/// A line is a complete message when it holds no newline of its own.
pub open spec fn frameable(payload: Seq<char>) -> bool {
    !contains(payload, seq!['\n'])
}

/// Why a message could not be put on the wire.
#[derive(PartialEq, Eq, Structural, Clone, Copy, Debug)]
pub enum FrameError {
    /// The encoded message holds a raw newline, which would split it in two.
    EmbeddedNewline,
}

/// An encoded message terminated by a newline, ready to be written.
pub fn frame(payload: &str) -> (r: Result<String, FrameError>)
    ensures
        frameable(payload@) ==> r is Ok && r.unwrap()@ == payload@.push('\n'),
        !frameable(payload@) ==> r == Err::<String, FrameError>(FrameError::EmbeddedNewline),
{
    if contains_text(payload, "\n") {
        proof {
            reveal_strlit("\n");
            assert("\n"@ =~= seq!['\n']);
        }
        Err(FrameError::EmbeddedNewline)
    } else {
        proof {
            reveal_strlit("\n");
            assert("\n"@ =~= seq!['\n']);
        }
        let mut line = String::from_str(payload);
        crate::text::push_char(&mut line, '\n');
        Ok(line)
    }
}

} // verus!
