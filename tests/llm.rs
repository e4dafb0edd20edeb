use alfred::llm::{
    generate, generate_commit_message, is_loaded, suggest_branch_name,
    suggest_conflict_resolution, suggest_rebase_strategy, unload, Finish, ModelSlot, Operation,
};

#[test]
fn commit_prompt_quotes_at_most_4000_bytes() {
    let diff = "x".repeat(5000);
    let job = generate_commit_message(&diff);
    assert!(job.prompt.starts_with("<|system|>\nYou are a helpful assistant that generates concise"));
    assert!(job.prompt.ends_with(&format!("diff:\n\n{}<|end|>\n<|assistant|>", "x".repeat(4000))));
    assert!(!job.prompt.contains(&"x".repeat(4001)));
    assert_eq!(job.max_tokens, 100);
}

#[test]
fn commit_message_takes_first_line() {
    let job = generate_commit_message("d");
    assert_eq!(job.finish(" fix: a  \nbody\n"), "fix: a");
    assert_eq!(job.finish("   "), "");
}

#[test]
fn branch_name_loses_quotes() {
    let job = suggest_branch_name("login bug");
    assert!(job.prompt.ends_with("Suggest a branch name for: login bug<|end|>\n<|assistant|>"));
    assert_eq!(job.max_tokens, 30);
    assert_eq!(job.finish("  \"feature/login-fix\"\nbecause"), "feature/login-fix\"");
    assert_eq!(job.finish("`bugfix/x`"), "bugfix/x");
    assert_eq!(job.finish(""), "");
}

#[test]
fn conflict_prompt_orders_versions() {
    let job = suggest_conflict_resolution("a.rs", "OURS", "THEIRS", "BASE");
    let p = &job.prompt;
    assert!(p.contains("Resolve this merge conflict in a.rs:\n\nBASE (original):\nBASE\n\nOURS (current branch):\nOURS\n\nTHEIRS (incoming branch):\nTHEIRS\n\nProvide the merged result:<|end|>\n<|assistant|>"));
    assert_eq!(job.max_tokens, 500);
    assert_eq!(job.finish, Finish::Trimmed);
}

#[test]
fn rebase_prompt_lists_commits() {
    let commits = vec!["a1 one".to_string(), "b2 two".to_string()];
    let job = suggest_rebase_strategy(&commits, "main");
    assert!(job.prompt.contains("onto main:\n\na1 one\nb2 two\n\nSuggest a rebase strategy"));
    assert_eq!(job.max_tokens, 200);
}

#[test]
fn free_generation_keeps_prompt() {
    let job = generate("hello", 7);
    assert_eq!(job.prompt, "hello");
    assert_eq!(job.max_tokens, 7);
    let op = Operation::Generate { prompt: "hello".to_string(), max_tokens: 7 };
    assert_eq!(op.job().prompt, "hello");
}

#[test]
fn model_slot_loads_once() {
    let mut slot: ModelSlot<u32> = ModelSlot::new();
    assert!(!is_loaded(&slot));
    assert!(slot.store(1));
    assert!(!slot.store(2));
    assert_eq!(slot.get(), Some(&1));
    assert!(is_loaded(&slot));
    unload(&mut slot);
    assert!(is_loaded(&slot));
    assert_eq!(slot.get(), Some(&1));
}
