use alfred::branch::{
    new_branch, sanitize_branch_name, sanitize_classified, sanitize_lowered, NewBranchAction, NewBranchEvent,
    NewBranchOutcome, NewBranchPhase,
};

#[test]
fn sanitizes_names() {
    assert_eq!(sanitize_branch_name("Fix Login Bug!"), "fix-login-bug");
    assert_eq!(sanitize_branch_name("feature/Ünïcode_x"), "feature/ünïcode_x");
    assert_eq!(sanitize_lowered("--a  b--c-"), "a-b-c");
    assert_eq!(sanitize_lowered("!!!"), "");
}

#[test]
fn given_name_is_created() {
    let (p, a) = new_branch(NewBranchPhase::Start, NewBranchEvent::Begin(Some("My Feature".to_string())));
    assert!(matches!(&a, NewBranchAction::Create(n) if n == "my-feature"));
    let (_, a) = new_branch(p, NewBranchEvent::Created(Ok(())));
    assert!(matches!(a, NewBranchAction::Finish(NewBranchOutcome::Created(n)) if n == "my-feature"));
}

#[test]
fn suggestion_flow() {
    let (p, a) = new_branch(NewBranchPhase::Start, NewBranchEvent::Begin(None));
    assert!(matches!(a, NewBranchAction::AskDescription));
    let (p, a) = new_branch(p, NewBranchEvent::Described(Some("fix login".to_string())));
    assert!(matches!(&a, NewBranchAction::Suggest(d) if d == "fix login"));
    let (p, a) = new_branch(p, NewBranchEvent::Suggested(Ok("bugfix/login".to_string())));
    assert!(matches!(&a, NewBranchAction::Confirm(s) if s == "bugfix/login"));
    let (p, a) = new_branch(p, NewBranchEvent::Confirmed(false));
    assert!(matches!(a, NewBranchAction::AskName(None)));
    let (_, a) = new_branch(p, NewBranchEvent::Named(None));
    assert!(matches!(a, NewBranchAction::Finish(NewBranchOutcome::Aborted)));
}

#[test]
fn failed_suggestion_asks_for_name() {
    let (p, _) = new_branch(NewBranchPhase::Start, NewBranchEvent::Begin(None));
    let (p, _) = new_branch(p, NewBranchEvent::Described(Some("x".to_string())));
    let (p, a) = new_branch(p, NewBranchEvent::Suggested(Err("no model".to_string())));
    assert!(matches!(&a, NewBranchAction::AskName(Some(e)) if e == "no model"));
    let (p, a) = new_branch(p, NewBranchEvent::Named(Some("Hot Fix".to_string())));
    assert!(matches!(&a, NewBranchAction::Create(n) if n == "hot-fix"));
    let (_, a) = new_branch(p, NewBranchEvent::Created(Err("exists".to_string())));
    assert!(matches!(a, NewBranchAction::Finish(NewBranchOutcome::Failed(e)) if e == "exists"));
}

#[test]
fn empty_name_aborts() {
    let (_, a) = new_branch(NewBranchPhase::Start, NewBranchEvent::Begin(Some(String::new())));
    assert!(matches!(a, NewBranchAction::Finish(NewBranchOutcome::Aborted)));
}

#[test]
fn sanitizes_with_given_classes() {
    assert_eq!(sanitize_classified("ab!c", &vec![true, false, false, true]), "a-c");
    assert_eq!(sanitize_classified("x_/y", &vec![true, false, false, true]), "x_/y");
    assert_eq!(sanitize_classified("", &vec![]), "");
}
