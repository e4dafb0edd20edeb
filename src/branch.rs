//! Creating a branch: the dialogue that arrives at a name, and how a name is made
//! safe for git.

use vstd::prelude::*;
use crate::text::{chars_of, join_by, joined_by, string_of, views};

verus! {

/// The lower-case form of a string, as `str::to_lowercase` gives it.
pub uninterp spec fn lower_of(s: Seq<char>) -> Seq<char>;

/// Whether a character is alphabetic or numeric, as `char::is_alphanumeric` says.
pub uninterp spec fn alnum(c: char) -> bool;

/// Relies on `str::to_lowercase`: the Unicode lower-case mapping of the whole string,
/// which depends on the characters alone.
#[verifier::external_body]
fn lowercase(s: &str) -> (r: String)
    ensures
        r@ == lower_of(s@),
{
    s.to_lowercase()
}

/// Relies on `char::is_alphanumeric`: Unicode's alphabetic or numeric property.
#[verifier::external_body]
fn is_alphanumeric(c: char) -> (r: bool)
    ensures
        r == alnum(c),
{
    c.is_alphanumeric()
}

/// A character as it may stand in a branch name, given whether it is alphabetic or
/// numeric: letters, digits, `/`, `_` and `-` stay, anything else becomes `-`.
pub open spec fn name_char_with(c: char, alphanumeric: bool) -> char {
    if alphanumeric || c == '/' || c == '_' || c == '-' {
        c
    } else {
        '-'
    }
}

/// `name_char_with`, classifying `c` as `char::is_alphanumeric` does.
pub open spec fn name_char(c: char) -> char {
    name_char_with(c, alnum(c))
}

/// The non-empty runs of characters other than `-` in `s[start..]`, scanning from
/// `i`, where the current run began at `start`.
pub open spec fn runs_from(s: Seq<char>, start: int, i: int) -> Seq<Seq<char>>
    decreases s.len() - i,
{
    if i >= s.len() {
        if start < s.len() {
            seq![s.subrange(start, s.len() as int)]
        } else {
            seq![]
        }
    } else if s[i] == '-' {
        if start < i {
            seq![s.subrange(start, i)] + runs_from(s, i + 1, i + 1)
        } else {
            runs_from(s, i + 1, i + 1)
        }
    } else {
        runs_from(s, start, i + 1)
    }
}

/// The branch name made of an already lower-cased name: every other character
/// turned into `-`, then the non-empty runs between dashes joined by single dashes.
pub open spec fn sanitized(lowered: Seq<char>) -> Seq<char> {
    joined_by(runs_from(lowered.map_values(|c: char| name_char(c)), 0, 0), '-')
}

/// The branch name made of a lower-cased name whose `i`-th character is
/// alphabetic or numeric exactly when `classes[i]` holds.
pub open spec fn sanitized_with(lowered: Seq<char>, classes: Seq<bool>) -> Seq<char> {
    joined_by(
        runs_from(Seq::new(lowered.len(), |i: int| name_char_with(lowered[i], classes[i])), 0, 0),
        '-',
    )
}

/// Makes a lower-cased name safe for git, given for each character whether it is
/// alphabetic or numeric (see `sanitized_with`).
pub fn sanitize_classified(lowered: &str, classes: &Vec<bool>) -> (r: String)
    requires
        classes@.len() == lowered@.len(),
    ensures
        r@ == sanitized_with(lowered@, classes@),
{
    let v = chars_of(lowered);
    let n = v.len();
    let ghost ms = Seq::new(lowered@.len(), |i: int| name_char_with(lowered@[i], classes@[i]));
    let mut m: Vec<char> = Vec::new();
    let mut k: usize = 0;
    while k < n
        invariant
            v@ == lowered@,
            n == v@.len(),
            classes@.len() == n,
            k <= n,
            ms == Seq::new(lowered@.len(), |i: int| name_char_with(lowered@[i], classes@[i])),
            m@ == ms.subrange(0, k as int),
        decreases n - k,
    {
        let c = v[k];
        let d = if classes[k] || c == '/' || c == '_' || c == '-' {
            c
        } else {
            '-'
        };
        m.push(d);
        assert(ms.subrange(0, k + 1) =~= ms.subrange(0, k as int).push(d));
        k += 1;
    }
    assert(m@ =~= ms);
    let mut runs: Vec<String> = Vec::new();
    let mut start: usize = 0;
    let mut i: usize = 0;
    while i < n
        invariant
            n == m@.len(),
            m@ == ms,
            start <= i <= n,
            runs_from(ms, 0, 0) == views(runs@) + runs_from(ms, start as int, i as int),
        decreases n - i,
    {
        if m[i] == '-' {
            if start < i {
                let run = string_of(&m, start, i);
                proof {
                    assert(views(runs@.push(run)) =~= views(runs@).push(run@));
                    assert(views(runs@) + runs_from(ms, start as int, i as int) =~= views(
                        runs@,
                    ).push(run@) + runs_from(ms, i + 1, i + 1));
                }
                runs.push(run);
            }
            start = i + 1;
        }
        i += 1;
    }
    if start < n {
        let run = string_of(&m, start, n);
        proof {
            assert(views(runs@.push(run)) =~= views(runs@) + seq![run@]);
        }
        runs.push(run);
    } else {
        assert(views(runs@) + runs_from(ms, start as int, i as int) =~= views(runs@));
    }
    join_by(&runs, '-')
}

/// Makes a lower-cased name safe for git (see `sanitized`).
pub fn sanitize_lowered(lowered: &str) -> (r: String)
    ensures
        r@ == sanitized(lowered@),
{
    let v = chars_of(lowered);
    let mut classes: Vec<bool> = Vec::new();
    let mut k: usize = 0;
    while k < v.len()
        invariant
            v@ == lowered@,
            k <= v@.len(),
            classes@.len() == k,
            forall|i: int| 0 <= i < k ==> classes@[i] == alnum(#[trigger] v@[i]),
        decreases v.len() - k,
    {
        classes.push(is_alphanumeric(v[k]));
        k += 1;
    }
    assert(Seq::new(lowered@.len(), |i: int| name_char_with(lowered@[i], classes@[i]))
        =~= lowered@.map_values(|c: char| name_char(c)));
    sanitize_classified(lowered, &classes)
}

/// Makes a branch name safe for git: lower-cased, then sanitized.
pub fn sanitize_branch_name(name: &str) -> (r: String)
    ensures
        r@ == sanitized(lower_of(name@)),
{
    sanitize_lowered(lowercase(name).as_str())
}

/// Where the dialogue of `branch new` stands.
#[derive(Debug)]
pub enum NewBranchPhase {
    Start,
    /// Waiting for a description of the work.
    Describing,
    /// Waiting for the model's suggestion.
    Suggesting,
    /// Waiting for the user to accept the suggestion.
    Confirming(String),
    /// Waiting for a name typed by the user.
    Naming,
    /// Waiting for git to create the branch.
    Creating(String),
    Done,
}

/// What was observed after the last action.
#[derive(Debug)]
pub enum NewBranchEvent {
    /// The command began, with the name given on the command line, if any.
    Begin(Option<String>),
    /// The description typed (`None` when nothing was typed).
    Described(Option<String>),
    /// The suggested name, or why none came.
    Suggested(Result<String, String>),
    Confirmed(bool),
    /// The name typed (`None` when nothing was typed).
    Named(Option<String>),
    /// Whether git created the branch, or its error.
    Created(Result<(), String>),
}

/// How `branch new` ended.
#[derive(Debug)]
pub enum NewBranchOutcome {
    Aborted,
    Created(String),
    /// git did not create the branch; its error.
    Failed(String),
}

/// What the caller does next.
#[derive(Debug)]
pub enum NewBranchAction {
    AskDescription,
    Suggest(String),
    Confirm(String),
    /// Ask for a name, first reporting why no suggestion came, if that is why.
    AskName(Option<String>),
    Create(String),
    Finish(NewBranchOutcome),
}

/// Whether `event` answers the action that led to `phase`.
pub open spec fn fits(phase: NewBranchPhase, event: NewBranchEvent) -> bool {
    match phase {
        NewBranchPhase::Start => event is Begin,
        NewBranchPhase::Describing => event is Described,
        NewBranchPhase::Suggesting => event is Suggested,
        NewBranchPhase::Confirming(_) => event is Confirmed,
        NewBranchPhase::Naming => event is Named,
        NewBranchPhase::Creating(_) => event is Created,
        NewBranchPhase::Done => false,
    }
}

/// Once a name is chosen: an empty one aborts, any other is sanitized and created.
pub open spec fn chosen(name: String, phase: NewBranchPhase, action: NewBranchAction) -> bool {
    if name@.len() == 0 {
        phase is Done && (action matches NewBranchAction::Finish(NewBranchOutcome::Aborted))
    } else {
        (phase matches NewBranchPhase::Creating(p) && p@ == sanitized(lower_of(name@))) && (
        action matches NewBranchAction::Create(a) && a@ == sanitized(lower_of(name@)))
    }
}

/// What one step of `branch new` leads to.
pub open spec fn new_branch_step(
    phase: NewBranchPhase,
    event: NewBranchEvent,
    next: NewBranchPhase,
    action: NewBranchAction,
) -> bool {
    match (phase, event) {
        (NewBranchPhase::Start, NewBranchEvent::Begin(given)) => match given {
            Some(n) => chosen(n, next, action),
            None => next is Describing && action is AskDescription,
        },
        (NewBranchPhase::Describing, NewBranchEvent::Described(d)) => match d {
            None => next is Done && (action matches NewBranchAction::Finish(
                NewBranchOutcome::Aborted,
            )),
            Some(d) => next is Suggesting && (action matches NewBranchAction::Suggest(x) && x@
                == d@),
        },
        (NewBranchPhase::Suggesting, NewBranchEvent::Suggested(res)) => match res {
            Ok(s) => (next matches NewBranchPhase::Confirming(p) && p@ == s@) && (
            action matches NewBranchAction::Confirm(a) && a@ == s@),
            Err(e) => next is Naming && (action matches NewBranchAction::AskName(Some(m)) && m@
                == e@),
        },
        (NewBranchPhase::Confirming(s), NewBranchEvent::Confirmed(yes)) => if yes {
            chosen(s, next, action)
        } else {
            next is Naming && (action matches NewBranchAction::AskName(None))
        },
        (NewBranchPhase::Naming, NewBranchEvent::Named(n)) => match n {
            None => next is Done && (action matches NewBranchAction::Finish(
                NewBranchOutcome::Aborted,
            )),
            Some(n) => chosen(n, next, action),
        },
        (NewBranchPhase::Creating(name), NewBranchEvent::Created(res)) => next is Done && match res {
            Ok(()) => (action matches NewBranchAction::Finish(NewBranchOutcome::Created(c)) && c@
                == name@),
            Err(e) => (action matches NewBranchAction::Finish(NewBranchOutcome::Failed(m)) && m@
                == e@),
        },
        _ => false,
    }
}

fn choose_name(name: String) -> (r: (NewBranchPhase, NewBranchAction))
    ensures
        chosen(name, r.0, r.1),
{
    if name.unicode_len() == 0 {
        (NewBranchPhase::Done, NewBranchAction::Finish(NewBranchOutcome::Aborted))
    } else {
        let s = sanitize_branch_name(name.as_str());
        let a = s.clone();
        (NewBranchPhase::Creating(s), NewBranchAction::Create(a))
    }
}

/// Advances `branch new` from `phase` by what was observed; starts at `Start`.
/// Without a name on the command line it asks for a description, has the model
/// suggest a name and asks to accept it; a refused or failed suggestion leads to
/// asking for a name. Nothing typed aborts. The chosen name is sanitized and the
/// branch created.
pub fn new_branch(phase: NewBranchPhase, event: NewBranchEvent) -> (r: (NewBranchPhase, NewBranchAction))
    requires
        fits(phase, event),
    ensures
        new_branch_step(phase, event, r.0, r.1),
{
    match (phase, event) {
        (NewBranchPhase::Start, NewBranchEvent::Begin(given)) => match given {
            Some(n) => choose_name(n),
            None => (NewBranchPhase::Describing, NewBranchAction::AskDescription),
        },
        (NewBranchPhase::Describing, NewBranchEvent::Described(d)) => match d {
            None => (NewBranchPhase::Done, NewBranchAction::Finish(NewBranchOutcome::Aborted)),
            Some(d) => (NewBranchPhase::Suggesting, NewBranchAction::Suggest(d)),
        },
        (NewBranchPhase::Suggesting, NewBranchEvent::Suggested(res)) => match res {
            Ok(s) => {
                let a = s.clone();
                (NewBranchPhase::Confirming(s), NewBranchAction::Confirm(a))
            },
            Err(e) => (NewBranchPhase::Naming, NewBranchAction::AskName(Some(e))),
        },
        (NewBranchPhase::Confirming(s), NewBranchEvent::Confirmed(yes)) => if yes {
            choose_name(s)
        } else {
            (NewBranchPhase::Naming, NewBranchAction::AskName(None))
        },
        (NewBranchPhase::Naming, NewBranchEvent::Named(n)) => match n {
            None => (NewBranchPhase::Done, NewBranchAction::Finish(NewBranchOutcome::Aborted)),
            Some(n) => choose_name(n),
        },
        (NewBranchPhase::Creating(name), NewBranchEvent::Created(res)) => match res {
            Ok(()) => (NewBranchPhase::Done, NewBranchAction::Finish(NewBranchOutcome::Created(name))),
            Err(e) => (NewBranchPhase::Done, NewBranchAction::Finish(NewBranchOutcome::Failed(e))),
        },
        (_, _) => (NewBranchPhase::Done, NewBranchAction::Finish(NewBranchOutcome::Aborted)),
    }
}

} // verus!
