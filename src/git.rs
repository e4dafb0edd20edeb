//! The git invocations the workflow commands make, and how their output is read.

use vstd::prelude::*;
use crate::text::{
    contains, contains_text, lines, lines_of, parse_usize, parsed_usize, same_text, to_decimal,
    decimal, trim, trimmed, views,
};

verus! {

/// Why a git invocation failed.
#[derive(Clone, Debug)]
pub enum GitError {
    /// git could not be started for the named subcommand.
    Spawn(String),
    /// git ran and failed: the subcommand and what it wrote to standard error, trimmed.
    Failed { command: String, stderr: String },
}

pub open spec fn git_message(e: GitError) -> Seq<char> {
    match e {
        GitError::Spawn(c) => "Failed to execute git "@ + c@,
        GitError::Failed { command, stderr } => "git "@ + command@ + " failed: "@ + stderr@,
    }
}

impl GitError {
    /// The human-readable cause.
    pub fn message(&self) -> (r: String)
        ensures
            r@ == git_message(*self),
    {
        match self {
            GitError::Spawn(c) => {
                let mut m = String::from_str("Failed to execute git ");
                m.append(c.as_str());
                m
            },
            GitError::Failed { command, stderr } => {
                let mut m = String::from_str("git ");
                m.append(command.as_str());
                m.append(" failed: ");
                m.append(stderr.as_str());
                m
            },
        }
    }
}

pub open spec fn git_result_view(r: Result<String, GitError>) -> Result<Seq<char>, ()> {
    match r {
        Ok(s) => Ok(s@),
        Err(_) => Err(()),
    }
}

/// What a finished git invocation yields: its trimmed standard output, unless it
/// failed with a standard error that is not a mere warning.
pub fn run_result(command: &str, success: bool, stdout: &str, stderr: &str) -> (r: Result<
    String,
    GitError,
>)
    ensures
        (success || contains(stderr@, "warning"@)) ==> (r is Ok && r.unwrap()@ == trimmed(stdout@)),
        !(success || contains(stderr@, "warning"@)) ==> (r matches Err(GitError::Failed { command: c, stderr: e })
            && c@ == command@ && e@ == trimmed(stderr@)),
{
    if success || contains_text(stderr, "warning") {
        Ok(trim(stdout))
    } else {
        Err(GitError::Failed { command: String::from_str(command), stderr: trim(stderr) })
    }
}

fn push_word(v: &mut Vec<String>, w: &str)
    ensures
        views(final(v)@) == views(old(v)@).push(w@),
{
    v.push(String::from_str(w));
    assert(views(v@) =~= views(old(v)@).push(w@));
}

fn args2(a: &str, b: &str) -> (r: Vec<String>)
    ensures
        views(r@) == seq![a@, b@],
{
    let mut v: Vec<String> = Vec::new();
    push_word(&mut v, a);
    push_word(&mut v, b);
    assert(views(v@) =~= seq![a@, b@]);
    v
}

fn args3(a: &str, b: &str, c: &str) -> (r: Vec<String>)
    ensures
        views(r@) == seq![a@, b@, c@],
{
    let mut v = args2(a, b);
    push_word(&mut v, c);
    assert(views(v@) =~= seq![a@, b@, c@]);
    v
}

fn args4(a: &str, b: &str, c: &str, d: &str) -> (r: Vec<String>)
    ensures
        views(r@) == seq![a@, b@, c@, d@],
{
    let mut v = args3(a, b, c);
    push_word(&mut v, d);
    assert(views(v@) =~= seq![a@, b@, c@, d@]);
    v
}

/// A read-only question put to git.
#[derive(Clone, Debug)]
pub enum Query {
    /// Whether the working directory is inside a repository.
    RepoProbe,
    CurrentBranch,
    /// Commits behind and ahead of the upstream, tab-separated.
    AheadBehind,
    Porcelain,
    Branches,
    RemoteBranches,
    /// The version of `file` at conflict stage `stage` (1 base, 2 ours, 3 theirs).
    Show { stage: u8, file: String },
    RebaseCommits { onto: String },
    MergedBranches { into: String },
}

pub open spec fn query_words(q: Query) -> Seq<Seq<char>> {
    match q {
        Query::RepoProbe => seq!["rev-parse"@, "--git-dir"@],
        Query::CurrentBranch => seq!["branch"@, "--show-current"@],
        Query::AheadBehind => seq!["rev-list"@, "--left-right"@, "--count"@, "@{u}...HEAD"@],
        Query::Porcelain => seq!["status"@, "--porcelain=v1"@],
        Query::Branches => seq!["branch"@, "--format=%(refname:short)"@],
        Query::RemoteBranches => seq!["branch"@, "-r"@, "--format=%(refname:short)"@],
        Query::Show { stage, file } => seq![
            "show"@,
            seq![':'] + decimal(stage as nat) + seq![':'] + file@,
        ],
        Query::RebaseCommits { onto } => seq!["log"@, "--oneline"@, onto@ + "..HEAD"@],
        Query::MergedBranches { into } => seq![
            "branch"@,
            "--merged"@,
            into@,
            "--format=%(refname:short)"@,
        ],
    }
}

/// The arguments that put query `q` to git.
pub fn query_args(q: &Query) -> (r: Vec<String>)
    ensures
        views(r@) == query_words(*q),
{
    match q {
        Query::RepoProbe => args2("rev-parse", "--git-dir"),
        Query::CurrentBranch => args2("branch", "--show-current"),
        Query::AheadBehind => args4("rev-list", "--left-right", "--count", "@{u}...HEAD"),
        Query::Porcelain => args2("status", "--porcelain=v1"),
        Query::Branches => args2("branch", "--format=%(refname:short)"),
        Query::RemoteBranches => args3("branch", "-r", "--format=%(refname:short)"),
        Query::Show { stage, file } => {
            let mut spec_arg = String::new();
            crate::text::push_char(&mut spec_arg, ':');
            spec_arg.append(to_decimal(*stage as u64).as_str());
            crate::text::push_char(&mut spec_arg, ':');
            spec_arg.append(file.as_str());
            let mut v: Vec<String> = Vec::new();
            push_word(&mut v, "show");
            let ghost w = views(v@);
            v.push(spec_arg);
            assert(views(v@) =~= w.push(spec_arg@));
            assert(spec_arg@ =~= seq![':'] + decimal(*stage as nat) + seq![':'] + file@);
            assert(views(v@) =~= query_words(*q));
            v
        },
        Query::RebaseCommits { onto } => {
            let mut range = String::from_str(onto.as_str());
            range.append("..HEAD");
            let mut v = args2("log", "--oneline");
            let ghost w = views(v@);
            v.push(range);
            assert(views(v@) =~= w.push(range@));
            assert(views(v@) =~= query_words(*q));
            v
        },
        Query::MergedBranches { into } => args4(
            "branch",
            "--merged",
            into.as_str(),
            "--format=%(refname:short)",
        ),
    }
}

/// Whether the working directory is a repository, given the answer to `RepoProbe`.
pub fn is_git_repo(probe: &Result<String, GitError>) -> (r: bool)
    ensures
        r == probe is Ok,
{
    probe.is_ok()
}

/// The non-empty lines of `s`.
pub open spec fn nonempty_lines(ls: Seq<Seq<char>>) -> Seq<Seq<char>> {
    ls.filter(|l: Seq<char>| l.len() > 0)
}

pub open spec fn kept(l: Seq<char>, skip_bases: bool, into: Seq<char>) -> bool {
    l.len() > 0 && !(skip_bases && (l == into || l == "master"@ || l == "main"@))
}

/// The non-empty lines of `s`, optionally without the lines equal to `into`,
/// `master` or `main`.
fn listed(s: &str, skip_bases: bool, into: &str) -> (r: Vec<String>)
    ensures
        views(r@) == lines_of(s@).filter(|l: Seq<char>| kept(l, skip_bases, into@)),
{
    let all = lines(s);
    let ghost keep = |l: Seq<char>| kept(l, skip_bases, into@);
    let mut out: Vec<String> = Vec::new();
    let mut i: usize = 0;
    while i < all.len()
        invariant
            i <= all@.len(),
            views(all@) == lines_of(s@),
            keep == (|l: Seq<char>| kept(l, skip_bases, into@)),
            views(out@) == views(all@).subrange(0, i as int).filter(keep),
        decreases all.len() - i,
    {
        let line = &all[i];
        proof {
            let pre = views(all@).subrange(0, i as int);
            assert(views(all@).subrange(0, i + 1) =~= pre.push(line@));
            pre.lemma_filter_push(line@, keep);
            assert(views(all@)[i as int] == line@);
        }
        let take = line.unicode_len() > 0 && !(skip_bases && (same_text(line.as_str(), into)
            || same_text(line.as_str(), "master") || same_text(line.as_str(), "main")));
        if take {
            let c = line.clone();
            assert(views(out@.push(c)) =~= views(out@).push(c@));
            out.push(c);
        }
        i += 1;
    }
    assert(views(all@).subrange(0, i as int) =~= views(all@));
    out
}

/// The local branches listed by `Branches`.
pub fn get_branches(output: &str) -> (r: Vec<String>)
    ensures
        views(r@) == nonempty_lines(lines_of(output@)),
{
    let r = listed(output, false, "");
    proof {
        let f = |l: Seq<char>| kept(l, false, ""@);
        let g = |l: Seq<char>| l.len() > 0;
        assert(f =~= g);
        assert(lines_of(output@).filter(f) == lines_of(output@).filter(g));
    }
    r
}

/// The remote branches listed by `RemoteBranches`.
pub fn get_remote_branches(output: &str) -> (r: Vec<String>)
    ensures
        views(r@) == nonempty_lines(lines_of(output@)),
{
    let r = listed(output, false, "");
    proof {
        let f = |l: Seq<char>| kept(l, false, ""@);
        let g = |l: Seq<char>| l.len() > 0;
        assert(f =~= g);
        assert(lines_of(output@).filter(f) == lines_of(output@).filter(g));
    }
    r
}

/// The commits listed by `RebaseCommits`, one line each.
pub fn get_rebase_commits(output: &str) -> (r: Vec<String>)
    ensures
        views(r@) == nonempty_lines(lines_of(output@)),
{
    let r = listed(output, false, "");
    proof {
        let f = |l: Seq<char>| kept(l, false, ""@);
        let g = |l: Seq<char>| l.len() > 0;
        assert(f =~= g);
        assert(lines_of(output@).filter(f) == lines_of(output@).filter(g));
    }
    r
}

/// The branches listed by `MergedBranches { into }`, other than `into`, `master`
/// and `main`: those that can be deleted.
pub fn get_merged_branches(into: &str, output: &str) -> (r: Vec<String>)
    ensures
        views(r@) == lines_of(output@).filter(
            |l: Seq<char>| l.len() > 0 && l != into@ && l != "master"@ && l != "main"@,
        ),
{
    let r = listed(output, true, into);
    proof {
        let f = |l: Seq<char>| kept(l, true, into@);
        let g = |l: Seq<char>| l.len() > 0 && l != into@ && l != "master"@ && l != "main"@;
        assert(f =~= g);
        assert(lines_of(output@).filter(f) == lines_of(output@).filter(g));
    }
    r
}

/// The three versions of a conflicted file.
#[derive(Clone, Debug)]
pub struct ConflictInfo {
    pub file: String,
    pub base: String,
    pub ours: String,
    pub theirs: String,
}

pub open spec fn or_empty(r: Result<String, GitError>) -> Seq<char> {
    match r {
        Ok(s) => s@,
        Err(_) => seq![],
    }
}

fn ok_or_empty(r: &Result<String, GitError>) -> (s: String)
    ensures
        s@ == or_empty(*r),
{
    match r {
        Ok(s) => s.clone(),
        Err(_) => String::new(),
    }
}

/// The versions of `file` from the answers to `Show` at stages 1, 2 and 3; a
/// version git could not show is empty.
pub fn get_conflict_info(
    file: &str,
    base: &Result<String, GitError>,
    ours: &Result<String, GitError>,
    theirs: &Result<String, GitError>,
) -> (r: ConflictInfo)
    ensures
        r.file@ == file@,
        r.base@ == or_empty(*base),
        r.ours@ == or_empty(*ours),
        r.theirs@ == or_empty(*theirs),
{
    ConflictInfo {
        file: String::from_str(file),
        base: ok_or_empty(base),
        ours: ok_or_empty(ours),
        theirs: ok_or_empty(theirs),
    }
}

/// Where a line of `git status --porcelain=v1` puts its file.
#[derive(PartialEq, Eq, Structural, Clone, Copy, Debug)]
pub enum Bucket {
    Staged,
    Unstaged,
    Untracked,
    Conflicted,
}

/// Index and work-tree codes of an unmerged path.
pub open spec fn conflicted(x: char, y: char) -> bool {
    x == 'U' || y == 'U' || (x == 'A' && y == 'A') || (x == 'D' && y == 'D')
}

/// Whether status line `l` (two codes, a space, the path) puts its path in bucket `b`.
/// A conflict goes nowhere else; an untracked path goes nowhere else; otherwise the
/// path is staged when the index code is set and unstaged when the work-tree code is.
pub open spec fn in_bucket(l: Seq<char>, b: Bucket) -> bool {
    l.len() >= 3 && {
        let x = l[0];
        let y = l[1];
        match b {
            Bucket::Conflicted => conflicted(x, y),
            Bucket::Untracked => !conflicted(x, y) && x == '?',
            Bucket::Staged => !conflicted(x, y) && x != '?' && x != ' ',
            Bucket::Unstaged => !conflicted(x, y) && x != '?' && y != ' ' && y != '?',
        }
    }
}

/// The paths that the status lines `ls` put in bucket `b`, in order.
pub open spec fn files_of(ls: Seq<Seq<char>>, b: Bucket) -> Seq<Seq<char>>
    decreases ls.len(),
{
    if ls.len() == 0 {
        seq![]
    } else {
        let rest = files_of(ls.drop_last(), b);
        let l = ls.last();
        if in_bucket(l, b) {
            rest.push(l.subrange(3, l.len() as int))
        } else {
            rest
        }
    }
}

/// The state of the working tree.
#[derive(Clone, Debug)]
pub struct GitStatus {
    pub branch: String,
    pub ahead: usize,
    pub behind: usize,
    pub staged: Vec<String>,
    pub unstaged: Vec<String>,
    pub untracked: Vec<String>,
    pub conflicts: Vec<String>,
}

fn bucket_member(x: char, y: char, b: Bucket) -> (r: bool)
    ensures
        r == match b {
            Bucket::Conflicted => conflicted(x, y),
            Bucket::Untracked => !conflicted(x, y) && x == '?',
            Bucket::Staged => !conflicted(x, y) && x != '?' && x != ' ',
            Bucket::Unstaged => !conflicted(x, y) && x != '?' && y != ' ' && y != '?',
        },
{
    let c = x == 'U' || y == 'U' || (x == 'A' && y == 'A') || (x == 'D' && y == 'D');
    match b {
        Bucket::Conflicted => c,
        Bucket::Untracked => !c && x == '?',
        Bucket::Staged => !c && x != '?' && x != ' ',
        Bucket::Unstaged => !c && x != '?' && y != ' ' && y != '?',
    }
}

/// The paths of bucket `b` among the lines of `git status --porcelain=v1` output.
pub fn porcelain_files(porcelain: &str, b: Bucket) -> (r: Vec<String>)
    ensures
        views(r@) == files_of(lines_of(porcelain@), b),
{
    let all = lines(porcelain);
    let mut out: Vec<String> = Vec::new();
    let mut i: usize = 0;
    while i < all.len()
        invariant
            i <= all@.len(),
            views(all@) == lines_of(porcelain@),
            views(out@) == files_of(views(all@).subrange(0, i as int), b),
        decreases all.len() - i,
    {
        let ghost pre = views(all@).subrange(0, i as int);
        let ghost l = views(all@)[i as int];
        assert(views(all@).subrange(0, i + 1).drop_last() =~= pre);
        assert(views(all@).subrange(0, i + 1).last() == l);
        let v = crate::text::chars_of(all[i].as_str());
        assert(v@ == l);
        if v.len() >= 3 && bucket_member(v[0], v[1], b) {
            let f = crate::text::string_of(&v, 3, v.len());
            assert(views(out@.push(f)) =~= views(out@).push(f@));
            out.push(f);
        }
        i += 1;
    }
    assert(views(all@).subrange(0, i as int) =~= views(all@));
    out
}

/// Whether `i` is the position of the only tab in `s`.
pub open spec fn single_tab_at(s: Seq<char>, i: int) -> bool {
    0 <= i < s.len() && s[i] == '\t' && forall|j: int| 0 <= j < s.len() && j != i ==> s[j] != '\t'
}

pub open spec fn count_or_zero(o: Option<usize>) -> usize {
    match o {
        Some(n) => n,
        None => 0,
    }
}

/// Commits ahead of and behind the upstream, read from the answer to `AheadBehind`
/// (behind, a tab, ahead); both 0 when there is no such answer.
pub open spec fn ahead_behind_of(counts: Result<Seq<char>, ()>) -> (usize, usize) {
    match counts {
        Ok(s) => if exists|i: int| single_tab_at(s, i) {
            let i = choose|i: int| single_tab_at(s, i);
            (
                count_or_zero(parsed_usize(s.subrange(i + 1, s.len() as int))),
                count_or_zero(parsed_usize(s.subrange(0, i))),
            )
        } else {
            (0, 0)
        },
        Err(_) => (0, 0),
    }
}

fn count_or_zero_of(o: Option<usize>) -> (r: usize)
    ensures
        r == count_or_zero(o),
{
    match o {
        Some(n) => n,
        None => 0,
    }
}

/// Reads commits ahead and behind from the answer to `AheadBehind`.
pub fn ahead_behind(counts: &Result<String, GitError>) -> (r: (usize, usize))
    ensures
        r == ahead_behind_of(git_result_view(*counts)),
{
    let s = match counts {
        Ok(s) => s,
        Err(_) => {
            return (0, 0);
        },
    };
    let v = crate::text::chars_of(s.as_str());
    let n = v.len();
    let mut tabs: usize = 0;
    let mut at: usize = 0;
    let mut i: usize = 0;
    while i < n
        invariant
            v@ == s@,
            n == v@.len(),
            i <= n,
            tabs <= i,
            tabs == 0 ==> forall|j: int| 0 <= j < i ==> v@[j] != '\t',
            tabs >= 1 ==> at < i && v@[at as int] == '\t',
            tabs == 1 ==> forall|j: int| 0 <= j < i && j != at ==> v@[j] != '\t',
            tabs >= 2 ==> exists|j: int| 0 <= j < i && j != at && v@[j] == '\t',
        decreases n - i,
    {
        if v[i] == '\t' {
            if tabs == 0 {
                at = i;
            } else {
                assert(v@[i as int] == '\t' && i != at);
            }
            if tabs < 2 {
                tabs = tabs + 1;
            }
        }
        i += 1;
    }
    if tabs == 1 {
        assert(single_tab_at(s@, at as int));
        let behind = count_or_zero_of(parse_usize(crate::text::string_of(&v, 0, at).as_str()));
        let ahead = count_or_zero_of(parse_usize(crate::text::string_of(&v, at + 1, n).as_str()));
        proof {
            let c = choose|k: int| single_tab_at(s@, k);
            assert(c == at as int);
        }
        (ahead, behind)
    } else {
        assert forall|k: int| !single_tab_at(s@, k) by {
            if single_tab_at(s@, k) {
                if tabs >= 1 {
                    assert(v@[at as int] == '\t');
                }
            }
        }
        (0, 0)
    }
}

/// The state of the working tree from the answers to `CurrentBranch`,
/// `AheadBehind` and `Porcelain`; a question git could not answer counts as
/// an empty answer.
pub fn status(
    branch: &Result<String, GitError>,
    counts: &Result<String, GitError>,
    porcelain: &Result<String, GitError>,
) -> (r: GitStatus)
    ensures
        r.branch@ == or_empty(*branch),
        (r.ahead, r.behind) == ahead_behind_of(git_result_view(*counts)),
        views(r.staged@) == files_of(lines_of(or_empty(*porcelain)), Bucket::Staged),
        views(r.unstaged@) == files_of(lines_of(or_empty(*porcelain)), Bucket::Unstaged),
        views(r.untracked@) == files_of(lines_of(or_empty(*porcelain)), Bucket::Untracked),
        views(r.conflicts@) == files_of(lines_of(or_empty(*porcelain)), Bucket::Conflicted),
{
    let (ahead, behind) = ahead_behind(counts);
    let p = ok_or_empty(porcelain);
    GitStatus {
        branch: ok_or_empty(branch),
        ahead,
        behind,
        staged: porcelain_files(p.as_str(), Bucket::Staged),
        unstaged: porcelain_files(p.as_str(), Bucket::Unstaged),
        untracked: porcelain_files(p.as_str(), Bucket::Untracked),
        conflicts: porcelain_files(p.as_str(), Bucket::Conflicted),
    }
}

fn args1(a: &str) -> (r: Vec<String>)
    ensures
        views(r@) == seq![a@],
{
    let mut v: Vec<String> = Vec::new();
    push_word(&mut v, a);
    assert(views(v@) =~= seq![a@]);
    v
}

/// Arguments of the diff of the staged changes, or of the unstaged ones.
pub fn diff(staged: bool) -> (r: Vec<String>)
    ensures
        staged ==> views(r@) == seq!["diff"@, "--cached"@],
        !staged ==> views(r@) == seq!["diff"@],
{
    if staged {
        args2("diff", "--cached")
    } else {
        args1("diff")
    }
}

/// Arguments of the one-line log of the last `count` commits.
pub fn log(count: usize) -> (r: Vec<String>)
    ensures
        views(r@) == seq!["log"@, "--oneline"@, seq!['-'] + decimal(count as nat)],
{
    let mut limit = String::new();
    crate::text::push_char(&mut limit, '-');
    limit.append(to_decimal(count as u64).as_str());
    let mut v = args2("log", "--oneline");
    let ghost w = views(v@);
    v.push(limit);
    assert(views(v@) =~= w.push(limit@));
    assert(limit@ =~= seq!['-'] + decimal(count as nat));
    assert(views(v@) =~= seq!["log"@, "--oneline"@, seq!['-'] + decimal(count as nat)]);
    v
}

/// Arguments of a commit of the staged changes with `message`.
pub fn commit(message: &str) -> (r: Vec<String>)
    ensures
        views(r@) == seq!["commit"@, "-m"@, message@],
{
    args3("commit", "-m", message)
}

/// Arguments that stage `files`.
pub fn add(files: &Vec<String>) -> (r: Vec<String>)
    ensures
        views(r@) == seq!["add"@] + views(files@),
{
    let mut v = args1("add");
    let mut i: usize = 0;
    while i < files.len()
        invariant
            i <= files@.len(),
            views(v@) == seq!["add"@] + views(files@.subrange(0, i as int)),
        decreases files.len() - i,
    {
        let f = files[i].clone();
        proof {
            assert(views(files@.subrange(0, i + 1)) =~= views(files@.subrange(0, i as int)).push(f@));
            assert(views(v@.push(f)) =~= views(v@).push(f@));
        }
        v.push(f);
        assert(views(v@) =~= seq!["add"@] + views(files@.subrange(0, i + 1)));
        i += 1;
    }
    assert(files@.subrange(0, i as int) =~= files@);
    v
}

/// Arguments that switch to `branch`.
pub fn checkout(branch: &str) -> (r: Vec<String>)
    ensures
        views(r@) == seq!["checkout"@, branch@],
{
    args2("checkout", branch)
}

/// Arguments that create branch `name` and switch to it.
pub fn create_branch(name: &str) -> (r: Vec<String>)
    ensures
        views(r@) == seq!["checkout"@, "-b"@, name@],
{
    args3("checkout", "-b", name)
}

/// Arguments that delete branch `name`; `force` deletes it even when unmerged.
pub fn delete_branch(name: &str, force: bool) -> (r: Vec<String>)
    ensures
        views(r@) == seq!["branch"@, if force { "-D"@ } else { "-d"@ }, name@],
{
    if force {
        args3("branch", "-D", name)
    } else {
        args3("branch", "-d", name)
    }
}

/// Arguments that rebase the current branch onto `onto`; an interactive rebase
/// hands the terminal to git.
pub fn rebase(onto: &str, interactive: bool) -> (r: Vec<String>)
    ensures
        interactive ==> views(r@) == seq!["rebase"@, "-i"@, onto@],
        !interactive ==> views(r@) == seq!["rebase"@, onto@],
{
    if interactive {
        args3("rebase", "-i", onto)
    } else {
        args2("rebase", onto)
    }
}

/// Arguments that abandon a rebase in progress.
pub fn abort_rebase() -> (r: Vec<String>)
    ensures
        views(r@) == seq!["rebase"@, "--abort"@],
{
    args2("rebase", "--abort")
}

/// Arguments that continue a rebase once conflicts are resolved.
pub fn continue_rebase() -> (r: Vec<String>)
    ensures
        views(r@) == seq!["rebase"@, "--continue"@],
{
    args2("rebase", "--continue")
}

/// Arguments that stage a resolved `file`.
pub fn stage_file(file: &str) -> (r: Vec<String>)
    ensures
        views(r@) == seq!["add"@, file@],
{
    args2("add", file)
}

} // verus!
