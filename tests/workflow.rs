use alfred::workflow::{base_branch, deletable, files_to_resolve, listed, rebase_targets};

fn v(items: &[&str]) -> Vec<String> {
    items.iter().map(|s| s.to_string()).collect()
}

#[test]
fn base_branch_preference() {
    assert_eq!(base_branch(&v(&["dev", "master", "main"])), "main");
    assert_eq!(base_branch(&v(&["dev", "master"])), "master");
    assert_eq!(base_branch(&v(&["dev", "x"])), "dev");
    assert_eq!(base_branch(&v(&[])), "main");
}

#[test]
fn current_branch_is_not_deleted() {
    assert_eq!(deletable(&v(&["a", "b", "a"]), "a"), v(&["b"]));
    assert!(listed(&v(&["a", "b"]), "b"));
    assert!(!listed(&v(&["a", "b"]), "c"));
}

#[test]
fn conflict_targets() {
    let c = v(&["a.rs", "b.rs"]);
    assert_eq!(files_to_resolve(&c, &None), c);
    assert_eq!(files_to_resolve(&c, &Some("b.rs".to_string())), v(&["b.rs"]));
    assert!(files_to_resolve(&c, &Some("z.rs".to_string())).is_empty());
}

#[test]
fn rebase_target_order() {
    let b = v(&["feature", "dev", "main", "topic", "master"]);
    assert_eq!(rebase_targets(&b, "topic"), v(&["main", "master", "dev", "feature"]));
}
