//! What is asked of the language model: the prompt and token budget of each
//! operation, how its raw output is cleaned up, and the slot that holds the model.

use vstd::prelude::*;
use crate::text::{
    join_by, joined_by, first_line, first_line_of, lines, lines_of, prefix_within, prefix_within_bytes, strip, stripped,
    trim, trimmed, views, CharClass,
};

verus! {

pub const COMMIT_HEAD: &'static str = "<|system|>
You are a helpful assistant that generates concise, conventional git commit messages.
Follow the conventional commits format: type(scope): description
Types: feat, fix, docs, style, refactor, test, chore
Keep the first line under 72 characters.
Only output the commit message, nothing else.<|end|>
<|user|>
Generate a commit message for this diff:

";

pub const PROMPT_TAIL: &'static str = "<|end|>
<|assistant|>";

pub const CONFLICT_HEAD: &'static str = "<|system|>
You are a helpful assistant that resolves git merge conflicts.
Analyze the conflict and provide a merged result that preserves the intent of both changes.
Only output the resolved code, no explanations.<|end|>
<|user|>
Resolve this merge conflict in ";

pub const CONFLICT_BASE: &'static str = ":

BASE (original):
";

pub const CONFLICT_OURS: &'static str = "

OURS (current branch):
";

pub const CONFLICT_THEIRS: &'static str = "

THEIRS (incoming branch):
";

pub const CONFLICT_TAIL: &'static str = "

Provide the merged result:<|end|>
<|assistant|>";

pub const REBASE_HEAD: &'static str = "<|system|>
You are a helpful assistant that suggests git rebase strategies.
Analyze the commits and suggest which ones to squash, reorder, or reword.
Be concise and provide actionable suggestions.<|end|>
<|user|>
I'm rebasing these commits onto ";

pub const REBASE_COMMITS: &'static str = ":

";

pub const REBASE_TAIL: &'static str = "

Suggest a rebase strategy (squash, reorder, reword):<|end|>
<|assistant|>";

pub const BRANCH_HEAD: &'static str = "<|system|>
You are a helpful assistant that suggests git branch names.
Follow conventions: feature/, bugfix/, hotfix/, chore/
Use kebab-case, keep it short but descriptive.
Only output the branch name, nothing else.<|end|>
<|user|>
Suggest a branch name for: ";

/// Bytes of a diff that a commit-message prompt quotes.
pub const DIFF_LIMIT: usize = 4000;

/// Bytes of each side of a conflict that a resolution prompt quotes.
pub const CONFLICT_LIMIT: usize = 2000;

/// How the model's raw output becomes the operation's answer.
#[derive(PartialEq, Eq, Structural, Clone, Copy, Debug)]
pub enum Finish {
    /// The output without surrounding white space.
    Trimmed,
    /// The first line of the trimmed output, itself trimmed.
    FirstLine,
    /// The first line of the trimmed output once quotation marks around it are gone.
    BranchName,
}

/// One run of the model: the prompt, the most tokens to generate, and the clean-up.
#[derive(Clone, Debug)]
pub struct InferenceJob {
    pub prompt: String,
    pub max_tokens: u32,
    pub finish: Finish,
}

pub struct JobView {
    pub prompt: Seq<char>,
    pub max_tokens: u32,
    pub finish: Finish,
}

impl View for InferenceJob {
    type V = JobView;

    open spec fn view(&self) -> JobView {
        JobView { prompt: self.prompt@, max_tokens: self.max_tokens, finish: self.finish }
    }
}

/// The answer that clean-up `f` makes of the raw output `raw`.
pub open spec fn finished(f: Finish, raw: Seq<char>) -> Seq<char> {
    let t = trimmed(raw);
    match f {
        Finish::Trimmed => t,
        Finish::FirstLine => trimmed(first_line_of(t)),
        Finish::BranchName => {
            let q = stripped(t, CharClass::Quote);
            if lines_of(q).len() > 0 {
                lines_of(q)[0]
            } else {
                seq![]
            }
        },
    }
}

impl InferenceJob {
    /// The answer this job gives for the model's raw output.
    pub fn finish(&self, raw: &str) -> (r: String)
        ensures
            r@ == finished(self.finish, raw@),
    {
        let t = trim(raw);
        match self.finish {
            Finish::Trimmed => t,
            Finish::FirstLine => trim(&first_line(&t)),
            Finish::BranchName => {
                let q = strip(&t, CharClass::Quote);
                let all = lines(&q);
                if all.len() > 0 {
                    assert(views(all@)[0] == all@[0]@);
                    all[0].clone()
                } else {
                    String::new()
                }
            },
        }
    }
}

/// A free-form generation: the prompt as given.
pub fn generate(prompt: &str, max_tokens: u32) -> (r: InferenceJob)
    ensures
        r@ == (JobView { prompt: prompt@, max_tokens, finish: Finish::Trimmed }),
{
    InferenceJob { prompt: String::from_str(prompt), max_tokens, finish: Finish::Trimmed }
}

pub open spec fn commit_prompt(diff: Seq<char>) -> Seq<char> {
    COMMIT_HEAD@ + prefix_within(diff, DIFF_LIMIT as nat) + PROMPT_TAIL@
}

/// A commit message for `diff`, of which the prompt quotes the first
/// `DIFF_LIMIT` bytes.
pub fn generate_commit_message(diff: &str) -> (r: InferenceJob)
    ensures
        r@ == (JobView { prompt: commit_prompt(diff@), max_tokens: 100, finish: Finish::FirstLine }),
{
    let mut p = String::from_str(COMMIT_HEAD);
    p.append(&prefix_within_bytes(diff, DIFF_LIMIT));
    p.append(PROMPT_TAIL);
    InferenceJob { prompt: p, max_tokens: 100, finish: Finish::FirstLine }
}

pub open spec fn conflict_prompt(
    file: Seq<char>,
    ours: Seq<char>,
    theirs: Seq<char>,
    base: Seq<char>,
) -> Seq<char> {
    CONFLICT_HEAD@ + file + CONFLICT_BASE@ + prefix_within(base, CONFLICT_LIMIT as nat)
        + CONFLICT_OURS@ + prefix_within(ours, CONFLICT_LIMIT as nat) + CONFLICT_THEIRS@
        + prefix_within(theirs, CONFLICT_LIMIT as nat) + CONFLICT_TAIL@
}

/// A merged version of a conflicted `file`, from both sides and their common base.
pub fn suggest_conflict_resolution(file: &str, ours: &str, theirs: &str, base: &str) -> (r:
    InferenceJob)
    ensures
        r@ == (JobView {
            prompt: conflict_prompt(file@, ours@, theirs@, base@),
            max_tokens: 500,
            finish: Finish::Trimmed,
        }),
{
    let mut p = String::from_str(CONFLICT_HEAD);
    p.append(file);
    p.append(CONFLICT_BASE);
    p.append(&prefix_within_bytes(base, CONFLICT_LIMIT));
    p.append(CONFLICT_OURS);
    p.append(&prefix_within_bytes(ours, CONFLICT_LIMIT));
    p.append(CONFLICT_THEIRS);
    p.append(&prefix_within_bytes(theirs, CONFLICT_LIMIT));
    p.append(CONFLICT_TAIL);
    InferenceJob { prompt: p, max_tokens: 500, finish: Finish::Trimmed }
}

pub open spec fn rebase_prompt(commits: Seq<Seq<char>>, onto: Seq<char>) -> Seq<char> {
    REBASE_HEAD@ + onto + REBASE_COMMITS@ + joined_by(commits, '\n') + REBASE_TAIL@
}

/// Advice on squashing, reordering or rewording `commits` while rebasing onto `onto`.
pub fn suggest_rebase_strategy(commits: &Vec<String>, onto: &str) -> (r: InferenceJob)
    ensures
        r@ == (JobView {
            prompt: rebase_prompt(views(commits@), onto@),
            max_tokens: 200,
            finish: Finish::Trimmed,
        }),
{
    let mut p = String::from_str(REBASE_HEAD);
    p.append(onto);
    p.append(REBASE_COMMITS);
    p.append(&join_by(commits, '\n'));
    p.append(REBASE_TAIL);
    InferenceJob { prompt: p, max_tokens: 200, finish: Finish::Trimmed }
}

pub open spec fn branch_prompt(description: Seq<char>) -> Seq<char> {
    BRANCH_HEAD@ + description + PROMPT_TAIL@
}

/// A branch name for work described by `description`.
pub fn suggest_branch_name(description: &str) -> (r: InferenceJob)
    ensures
        r@ == (JobView {
            prompt: branch_prompt(description@),
            max_tokens: 30,
            finish: Finish::BranchName,
        }),
{
    let mut p = String::from_str(BRANCH_HEAD);
    p.append(description);
    p.append(PROMPT_TAIL);
    InferenceJob { prompt: p, max_tokens: 30, finish: Finish::BranchName }
}

/// A text-generation operation that the daemon or the local model performs.
#[derive(Clone, Debug)]
pub enum Operation {
    Generate { prompt: String, max_tokens: u32 },
    CommitMessage { diff: String },
    BranchName { description: String },
    ConflictResolution { file: String, ours: String, theirs: String, base: String },
    RebaseStrategy { commits: Vec<String>, onto: String },
}

pub enum OperationView {
    Generate { prompt: Seq<char>, max_tokens: u32 },
    CommitMessage { diff: Seq<char> },
    BranchName { description: Seq<char> },
    ConflictResolution { file: Seq<char>, ours: Seq<char>, theirs: Seq<char>, base: Seq<char> },
    RebaseStrategy { commits: Seq<Seq<char>>, onto: Seq<char> },
}

impl View for Operation {
    type V = OperationView;

    open spec fn view(&self) -> OperationView {
        match self {
            Operation::Generate { prompt, max_tokens } => OperationView::Generate {
                prompt: prompt@,
                max_tokens: *max_tokens,
            },
            Operation::CommitMessage { diff } => OperationView::CommitMessage { diff: diff@ },
            Operation::BranchName { description } => OperationView::BranchName {
                description: description@,
            },
            Operation::ConflictResolution { file, ours, theirs, base } =>
                OperationView::ConflictResolution {
                file: file@,
                ours: ours@,
                theirs: theirs@,
                base: base@,
            },
            Operation::RebaseStrategy { commits, onto } => OperationView::RebaseStrategy {
                commits: views(commits@),
                onto: onto@,
            },
        }
    }
}

/// The model run that performs operation `op`.
pub open spec fn job_of(op: OperationView) -> JobView {
    match op {
        OperationView::Generate { prompt, max_tokens } => JobView {
            prompt,
            max_tokens,
            finish: Finish::Trimmed,
        },
        OperationView::CommitMessage { diff } => JobView {
            prompt: commit_prompt(diff),
            max_tokens: 100,
            finish: Finish::FirstLine,
        },
        OperationView::BranchName { description } => JobView {
            prompt: branch_prompt(description),
            max_tokens: 30,
            finish: Finish::BranchName,
        },
        OperationView::ConflictResolution { file, ours, theirs, base } => JobView {
            prompt: conflict_prompt(file, ours, theirs, base),
            max_tokens: 500,
            finish: Finish::Trimmed,
        },
        OperationView::RebaseStrategy { commits, onto } => JobView {
            prompt: rebase_prompt(commits, onto),
            max_tokens: 200,
            finish: Finish::Trimmed,
        },
    }
}

impl Operation {
    /// The model run that performs this operation.
    pub fn job(&self) -> (r: InferenceJob)
        ensures
            r@ == job_of(self@),
    {
        match self {
            Operation::Generate { prompt, max_tokens } => generate(prompt.as_str(), *max_tokens),
            Operation::CommitMessage { diff } => generate_commit_message(diff.as_str()),
            Operation::BranchName { description } => suggest_branch_name(description.as_str()),
            Operation::ConflictResolution { file, ours, theirs, base } =>
                suggest_conflict_resolution(
                file.as_str(),
                ours.as_str(),
                theirs.as_str(),
                base.as_str(),
            ),
            Operation::RebaseStrategy { commits, onto } => suggest_rebase_strategy(
                commits,
                onto.as_str(),
            ),
        }
    }
}

/// The place a process keeps its loaded model: empty, or holding one model.
pub struct ModelSlot<M> {
    model: Option<M>,
}

impl<M> ModelSlot<M> {
    pub closed spec fn loaded(&self) -> bool {
        self.model is Some
    }

    pub closed spec fn held(&self) -> Option<M> {
        self.model
    }

    /// A slot with no model in it.
    pub fn new() -> (r: Self)
        ensures
            !r.loaded(),
    {
        ModelSlot { model: None }
    }

    /// Puts `model` in the slot unless one is already there, in which case the slot
    /// keeps its model; says whether `model` was taken.
    pub fn store(&mut self, model: M) -> (r: bool)
        ensures
            r == !old(self).loaded(),
            final(self).loaded(),
            old(self).loaded() ==> final(self).held() == old(self).held(),
            !old(self).loaded() ==> final(self).held() == Some(model),
    {
        if self.model.is_some() {
            false
        } else {
            self.model = Some(model);
            true
        }
    }

    /// The model in the slot, if any.
    pub fn get(&self) -> (r: Option<&M>)
        ensures
            r is Some == self.loaded(),
            self.loaded() ==> *r.unwrap() == self.held().unwrap(),
    {
        match &self.model {
            Some(m) => Some(m),
            None => None,
        }
    }
}

/// Whether a model is loaded in `slot`.
pub fn is_loaded<M>(slot: &ModelSlot<M>) -> (r: bool)
    ensures
        r == slot.loaded(),
{
    slot.model.is_some()
}

/// Releases what the process holds for inference beyond the model itself. The
/// model stays loaded until the process exits, so the slot is left as it was.
pub fn unload<M>(slot: &mut ModelSlot<M>)
    ensures
        final(slot).loaded() == old(slot).loaded(),
        final(slot).held() == old(slot).held(),
{
}

} // verus!
