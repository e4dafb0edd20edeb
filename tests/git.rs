use alfred::git::{
    abort_rebase, add, ahead_behind, checkout, commit, continue_rebase, create_branch,
    delete_branch, diff, get_branches, get_conflict_info, get_merged_branches,
    get_rebase_commits, get_remote_branches, is_git_repo, log, porcelain_files, query_args,
    rebase, run_result, stage_file, status, Bucket, GitError, Query,
};

#[test]
fn run_result_tolerates_warnings() {
    assert_eq!(run_result("status", true, " out \n", "").unwrap(), "out");
    assert_eq!(run_result("status", false, "x\n", "warning: y").unwrap(), "x");
    let e = run_result("branch", false, "", " fatal: no \n").unwrap_err();
    assert_eq!(e.message(), "git branch failed: fatal: no");
    assert_eq!(GitError::Spawn("log".to_string()).message(), "Failed to execute git log");
    assert!(is_git_repo(&Ok(".git".to_string())));
    assert!(!is_git_repo(&Err(GitError::Spawn("rev-parse".to_string()))));
}

#[test]
fn porcelain_sorts_paths() {
    let out = "M  staged.rs\n M changed.rs\nMM both.rs\n?? new.rs\nUU conflict.rs\nAA added.rs\nDD gone.rs\nx\nR  a -> b";
    let ok = Ok(out.to_string());
    let s = status(&Ok("main".to_string()), &Ok("2\t5".to_string()), &ok);
    assert_eq!(s.branch, "main");
    assert_eq!((s.ahead, s.behind), (5, 2));
    assert_eq!(s.staged, vec!["staged.rs", "both.rs", "a -> b"]);
    assert_eq!(s.unstaged, vec!["changed.rs", "both.rs"]);
    assert_eq!(s.untracked, vec!["new.rs"]);
    assert_eq!(s.conflicts, vec!["conflict.rs", "added.rs", "gone.rs"]);
    assert_eq!(porcelain_files("?? x", Bucket::Untracked), vec!["x"]);
}

#[test]
fn status_without_answers_is_empty() {
    let e = || Err(GitError::Spawn("x".to_string()));
    let s = status(&e(), &e(), &e());
    assert_eq!(s.branch, "");
    assert_eq!((s.ahead, s.behind), (0, 0));
    assert!(s.staged.is_empty() && s.conflicts.is_empty());
}

#[test]
fn ahead_behind_needs_one_tab() {
    assert_eq!(ahead_behind(&Ok("3\t4".to_string())), (4, 3));
    assert_eq!(ahead_behind(&Ok("3\t4\t5".to_string())), (0, 0));
    assert_eq!(ahead_behind(&Ok("3 4".to_string())), (0, 0));
    assert_eq!(ahead_behind(&Ok("x\t4".to_string())), (4, 0));
}

#[test]
fn branch_lists() {
    assert_eq!(get_branches("main\n\nfeature/a\n"), vec!["main", "feature/a"]);
    assert_eq!(get_remote_branches("origin/main"), vec!["origin/main"]);
    assert_eq!(get_rebase_commits("a1 x\nb2 y"), vec!["a1 x", "b2 y"]);
    assert_eq!(
        get_merged_branches("develop", "main\nmaster\ndevelop\nfix/a\n\nfeat/b"),
        vec!["fix/a", "feat/b"]
    );
}

#[test]
fn conflict_versions() {
    let c = get_conflict_info("f.rs", &Ok("b".to_string()), &Err(GitError::Spawn("show".to_string())), &Ok("t".to_string()));
    assert_eq!((c.file.as_str(), c.base.as_str(), c.ours.as_str(), c.theirs.as_str()), ("f.rs", "b", "", "t"));
}

#[test]
fn command_arguments() {
    assert_eq!(diff(true), vec!["diff", "--cached"]);
    assert_eq!(diff(false), vec!["diff"]);
    assert_eq!(log(10), vec!["log", "--oneline", "-10"]);
    assert_eq!(commit("m"), vec!["commit", "-m", "m"]);
    assert_eq!(add(&vec!["a".to_string(), "b".to_string()]), vec!["add", "a", "b"]);
    assert_eq!(checkout("x"), vec!["checkout", "x"]);
    assert_eq!(create_branch("x"), vec!["checkout", "-b", "x"]);
    assert_eq!(delete_branch("x", true), vec!["branch", "-D", "x"]);
    assert_eq!(delete_branch("x", false), vec!["branch", "-d", "x"]);
    assert_eq!(rebase("main", true), vec!["rebase", "-i", "main"]);
    assert_eq!(rebase("main", false), vec!["rebase", "main"]);
    assert_eq!(abort_rebase(), vec!["rebase", "--abort"]);
    assert_eq!(continue_rebase(), vec!["rebase", "--continue"]);
    assert_eq!(stage_file("f"), vec!["add", "f"]);
    assert_eq!(query_args(&Query::Show { stage: 2, file: "a.rs".to_string() }), vec!["show", ":2:a.rs"]);
    assert_eq!(query_args(&Query::RebaseCommits { onto: "main".to_string() }), vec!["log", "--oneline", "main..HEAD"]);
    assert_eq!(query_args(&Query::AheadBehind), vec!["rev-list", "--left-right", "--count", "@{u}...HEAD"]);
}
