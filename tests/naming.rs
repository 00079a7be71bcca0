use workflow::agent::AgentName;
use workflow::naming::{branch_name, slugify, slugify_lowered, worktree_path};

#[test]
fn test_slugify() {
    assert_eq!(slugify("Add login validation"), "add-login-validation");
    assert_eq!(slugify("Fix bug #42!"), "fix-bug--42");
}

#[test]
fn test_branch_name() {
    let name = branch_name(AgentName::Ember, "LIN-42", "Add login");
    assert_eq!(name, "agent/ember/LIN-42-add-login");
}

#[test]
fn test_worktree_path() {
    let path = worktree_path("/Users/pim/fm/workflow/main", AgentName::Ember);
    assert_eq!(path, "/Users/pim/fm/workflow/agent-ember");
}

#[test]
fn slugify_trims_dashes_at_both_ends() {
    assert_eq!(slugify("  --Hello, World!--  "), "hello--world");
}

#[test]
fn slugify_of_only_symbols_is_empty() {
    assert_eq!(slugify("!!! ???"), "");
    assert_eq!(slugify(""), "");
}

#[test]
fn slugify_keeps_at_most_forty_characters() {
    let title = "a".repeat(50);
    assert_eq!(slugify(&title), "a".repeat(40));
    let title = format!("{}-tail", "b".repeat(39));
    assert_eq!(slugify(&title), format!("{}-", "b".repeat(39)));
}

#[test]
fn slugify_lowercases_before_mapping() {
    assert_eq!(slugify("ABC Déjà"), "abc-d-j");
    assert_eq!(slugify_lowered("ABC"), "ABC");
}

#[test]
fn branch_name_keeps_eight_characters_of_long_ids() {
    let name = branch_name(AgentName::Terra, "abcdefghijkl", "Refactor store");
    assert_eq!(name, "agent/terra/abcdefgh-refactor-store");
}

#[test]
fn branch_name_counts_characters_not_bytes() {
    let name = branch_name(AgentName::Flow, "éééééééééé", "x");
    assert_eq!(name, "agent/flow/éééééééé-x");
}

#[test]
fn worktree_path_without_slash_appends_to_root() {
    assert_eq!(worktree_path("repo", AgentName::Tempest), "repo/agent-tempest");
    assert_eq!(worktree_path("/repo", AgentName::Flow), "/agent-flow");
}
