use workflow::agent::AgentName;
use workflow::personality::personality;
use workflow::prompt::{build_prompt, context_file, feedback_prompt, message_prompt};
use workflow::work_item::WorkItem;

fn test_item() -> WorkItem {
    WorkItem {
        id: "TEST-1".to_string(),
        source_id: None,
        title: "Test task".to_string(),
        description: Some("A test description".to_string()),
        status: Some("Todo".to_string()),
        priority: None,
        labels: vec!["bug".to_string()],
        source: "trello".to_string(),
        team: Some("TestTeam".to_string()),
        url: Some("https://example.com".to_string()),
    }
}

#[test]
fn prompt_includes_focus_for_all_agents() {
    let item = test_item();
    for name in AgentName::all() {
        let prompt = build_prompt(&item, name);
        let p = personality(name);
        assert!(prompt.contains("Focus:"), "{} prompt missing Focus field", name.as_str());
        assert!(prompt.contains(p.focus), "{} prompt missing focus content", name.as_str());
    }
}

#[test]
fn prompt_includes_personality_section() {
    let item = test_item();
    let prompt = build_prompt(&item, AgentName::Ember);
    let p = personality(AgentName::Ember);
    assert!(prompt.contains(&format!("Personality: {}", p.tagline)));
    assert!(prompt.contains("Traits:"));
    assert!(prompt.contains("Working style:"));
    assert!(prompt.contains(r#"You are agent "Ember""#));
}

#[test]
fn prompt_fills_item_fields_and_defaults() {
    let prompt = build_prompt(&test_item(), AgentName::Flow);
    assert!(prompt.starts_with(
        "You are agent \"Flow\" working on the following task. Your personality: Steady and thorough.\n\n# Test task\n- ID: TEST-1\n- Source: trello\n- URL: https://example.com\n- Priority: n/a\n- Labels: bug\n- Status: Todo\n- Team: TestTeam\n\n## Description\nA test description\n\n## Instructions\n"
    ));
    assert!(prompt.contains("5. Commit your changes with a message referencing TEST-1.\n"));
    assert!(prompt.ends_with(
        "- Traits: methodical, detail-oriented, quality-focused\n- Working style: You value correctness and thoroughness. Read the codebase carefully before making changes. Consider edge cases and write comprehensive tests. Think deeply about architecture — find solutions that work long term, not just today. Prefer clarity over cleverness. Take the time to get it right."
    ));
}

#[test]
fn prompt_with_no_labels_or_description() {
    let mut item = test_item();
    item.labels = Vec::new();
    item.description = None;
    item.url = None;
    let prompt = build_prompt(&item, AgentName::Terra);
    assert!(prompt.contains("- Labels: none\n"));
    assert!(prompt.contains("- URL: n/a\n"));
    assert!(prompt.contains("## Description\nNo description provided.\n"));
    item.labels = vec!["a".to_string(), "b".to_string(), "c".to_string()];
    assert!(build_prompt(&item, AgentName::Terra).contains("- Labels: a, b, c\n"));
}

#[test]
fn claude_md_includes_personality_for_all_agents() {
    for name in AgentName::all() {
        let content = context_file(name);
        let p = personality(name);
        assert!(content.contains("**Focus**:"), "{} context file missing Focus field", name.as_str());
        assert!(content.contains("**Traits**:"), "{} context file missing Traits field", name.as_str());
        assert!(
            content.contains("**Working style**:"),
            "{} context file missing Working style field",
            name.as_str()
        );
        assert!(content.contains(p.tagline), "{} context file missing tagline", name.as_str());
        assert!(content.contains(p.focus), "{} context file missing focus content", name.as_str());
        assert!(content.contains(p.system_prompt), "{} context file missing system prompt", name.as_str());
        assert!(content.contains(name.display_name()), "{} context file missing display name", name.as_str());
    }
}

#[test]
fn claude_md_includes_project_conventions() {
    let content = context_file(AgentName::Ember);
    assert!(content.contains("src/agents/"), "missing agents convention");
    assert!(content.contains("config.toml"), "missing config path convention");
    assert!(content.contains("agents.json"), "missing agent state convention");
    assert!(content.contains("thiserror"), "missing thiserror convention");
}

#[test]
fn context_file_ends_with_traits_and_style() {
    let content = context_file(AgentName::Tempest);
    assert!(content.starts_with("# work pipeline\n\n## Project Overview\n"));
    assert!(content.contains("You are **Tempest**, an autonomous agent working in a git worktree."));
    assert!(content.contains("- **Traits**: creative, chaotic, test-obsessed\n"));
    assert!(content.ends_with(" break things in tests so they don't break in prod.\n"));
}

#[test]
fn message_prompt_with_and_without_task() {
    let with = message_prompt(AgentName::Ember, "status?", Some("Fix login"));
    assert!(with.starts_with("You are Ember, an agent in a team dashboard CLI called \"work\".\nYour personality: Handles the fire — Detects"));
    assert!(with.contains("\n\nYou are currently working on: Fix login\n\nThe user has sent you this message:\nstatus?\n\n"));
    assert!(with.ends_with("Keep responses under 200 words."));
    let without = message_prompt(AgentName::Ember, "hello", None);
    assert!(!without.contains("currently working on"));
    assert!(without.contains("The user has sent you this message:\nhello\n\n"));
}

#[test]
fn feedback_prompt_names_task_and_feedback() {
    let p = feedback_prompt(AgentName::Flow, "use a map", "Refactor store");
    assert!(p.starts_with("You are Flow, an agent working on: Refactor store\nYour personality: Steady and thorough — "));
    assert!(p.contains("The user has given you this feedback:\nuse a map\n\n"));
    assert!(p.ends_with("briefly summarize what you did."));
}
