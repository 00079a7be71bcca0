use vstd::prelude::*;
use vstd::string::StringExecFns;

use crate::agent::{display_str, opt_view, AgentName};
use crate::personality::{focus_of, personality, system_prompt_of, tagline_of, traits_of};
use crate::text::{append_joined, append_joined_slices, join_of};
use crate::activity::opt_slice_view;
use crate::work_item::{WorkItem, WorkItemView};

verus! {

/// Name of the context file written into each worktree, which the task prompt
/// points the agent to.
pub const CONTEXT_FILE_NAME: &'static str = "AGENTS.md";

/// The value of an optional field, or a default when it is absent.
pub open spec fn or_default(o: Option<Seq<char>>, d: Seq<char>) -> Seq<char> {
    match o {
        Some(s) => s,
        None => d,
    }
}

/// The labels as they stand in a prompt.
pub open spec fn labels_text(labels: Seq<Seq<char>>) -> Seq<char> {
    if labels.len() == 0 {
        "none"@
    } else {
        join_of(labels, ", "@)
    }
}

/// The task prompt handed to an agent's engine for a work item.
pub open spec fn prompt_of(item: WorkItemView, agent: AgentName) -> Seq<char> {
    "You are agent \""@ + display_str(agent) + "\" working on the following task. Your personality: "@
        + tagline_of(agent) + ".\n\n# "@ + item.title + "\n- ID: "@ + item.id + "\n- Source: "@
        + item.source + "\n- URL: "@ + or_default(item.url, "n/a"@) + "\n- Priority: "@
        + or_default(item.priority, "n/a"@) + "\n- Labels: "@ + labels_text(item.labels)
        + "\n- Status: "@ + or_default(item.status, "n/a"@) + "\n- Team: "@ + or_default(
        item.team,
        "n/a"@,
    ) + "\n\n## Description\n"@ + or_default(item.description, "No description provided."@)
        + "\n\n## Instructions\n1. Read AGENTS.md in the project root for conventions and context.\n2. Implement the task described above.\n3. Write tests for your changes.\n4. Run `cargo test` and ensure all tests pass.\n5. Commit your changes with a message referencing "@
        + item.id
        + ".\n6. Run `git fetch origin main && git rebase origin/main`.\n7. Run `git push origin HEAD:main`.\n\nWork autonomously. Do not ask for clarification \u{2014} make reasonable decisions.\n\n## Personality: "@
        + tagline_of(agent) + "\n- Focus: "@ + focus_of(agent) + "\n- Traits: "@ + join_of(
        traits_of(agent),
        ", "@,
    ) + "\n- Working style: "@ + system_prompt_of(agent)
}

fn append_or(out: &mut String, o: &Option<String>, d: &str)
    ensures
        final(out)@ == old(out)@ + or_default(opt_view(*o), d@),
{
    match o {
        Some(s) => out.append(s.as_str()),
        None => out.append(d),
    }
}

/// Builds the task prompt for an agent working on an item.
pub fn build_prompt(item: &WorkItem, agent_name: AgentName) -> (r: String)
    ensures
        r@ == prompt_of(item@, agent_name),
{
    let p = personality(agent_name);
    let mut r = String::from_str("You are agent \"");
    r.append(agent_name.display_name());
    r.append("\" working on the following task. Your personality: ");
    r.append(p.tagline);
    r.append(".\n\n# ");
    r.append(item.title.as_str());
    r.append("\n- ID: ");
    r.append(item.id.as_str());
    r.append("\n- Source: ");
    r.append(item.source.as_str());
    r.append("\n- URL: ");
    append_or(&mut r, &item.url, "n/a");
    r.append("\n- Priority: ");
    append_or(&mut r, &item.priority, "n/a");
    r.append("\n- Labels: ");
    if item.labels.len() == 0 {
        r.append("none");
    } else {
        append_joined(&mut r, &item.labels, ", ");
    }
    r.append("\n- Status: ");
    append_or(&mut r, &item.status, "n/a");
    r.append("\n- Team: ");
    append_or(&mut r, &item.team, "n/a");
    r.append("\n\n## Description\n");
    append_or(&mut r, &item.description, "No description provided.");
    r.append(
        "\n\n## Instructions\n1. Read AGENTS.md in the project root for conventions and context.\n2. Implement the task described above.\n3. Write tests for your changes.\n4. Run `cargo test` and ensure all tests pass.\n5. Commit your changes with a message referencing ",
    );
    r.append(item.id.as_str());
    r.append(
        ".\n6. Run `git fetch origin main && git rebase origin/main`.\n7. Run `git push origin HEAD:main`.\n\nWork autonomously. Do not ask for clarification \u{2014} make reasonable decisions.\n\n## Personality: ",
    );
    r.append(p.tagline);
    r.append("\n- Focus: ");
    r.append(p.focus);
    r.append("\n- Traits: ");
    append_joined_slices(&mut r, &p.traits, ", ");
    r.append("\n- Working style: ");
    r.append(p.system_prompt);
    r
}

/// The context file written into an agent's worktree: the project's
/// conventions and the agent's identity and personality.
pub open spec fn context_file_of(agent: AgentName) -> Seq<char> {
    "# work pipeline\n\n## Project Overview\nA terminal dashboard CLI (`work`) that aggregates work items from Trello, Linear, Jira, and GitHub.\nBuilt with Rust and Ratatui (terminal UI).\n\n## Tech Stack\n- **Language**: Rust (edition 2021)\n- **UI**: Ratatui + Crossterm\n- **Async**: Tokio\n- **HTTP**: reqwest\n- **Build**: cargo\n- **Test**: cargo test\n\n## Conventions\n- Models in `src/model/`, providers in `src/providers/`, UI in `src/ui/`\n- Agent infrastructure in `src/agents/`\n- Use `anyhow` for error handling, `thiserror` for custom errors\n- Use `serde` for serialization/deserialization\n- Config stored at `~/.localpipeline/config.toml`\n- Agent state stored at `~/.localpipeline/agents.json`\n- Activity log at `~/.localpipeline/agent-activity.jsonl`\n\n## Testing\n- Run: `cargo test`\n\n## Commit Format\n- Short imperative subject line (e.g., \"Add login validation\")\n- Reference the work item ID in the commit body\n\n## Agent Identity\nYou are **"@
        + display_str(agent)
        + "**, an autonomous agent working in a git worktree.\nYour changes will be pushed directly to main.\n\n### Personality: "@
        + tagline_of(agent)
        + "\n- **Focus**: "@
        + focus_of(agent)
        + "\n- **Traits**: "@
        + join_of(traits_of(agent), ", "@)
        + "\n- **Working style**: "@
        + system_prompt_of(agent)
        + "\n"@
}

/// Builds the context file for an agent's worktree.
pub fn context_file(agent: AgentName) -> (r: String)
    ensures
        r@ == context_file_of(agent),
{
    let p = personality(agent);
    let mut r = String::from_str("# work pipeline\n\n## Project Overview\nA terminal dashboard CLI (`work`) that aggregates work items from Trello, Linear, Jira, and GitHub.\nBuilt with Rust and Ratatui (terminal UI).\n\n## Tech Stack\n- **Language**: Rust (edition 2021)\n- **UI**: Ratatui + Crossterm\n- **Async**: Tokio\n- **HTTP**: reqwest\n- **Build**: cargo\n- **Test**: cargo test\n\n## Conventions\n- Models in `src/model/`, providers in `src/providers/`, UI in `src/ui/`\n- Agent infrastructure in `src/agents/`\n- Use `anyhow` for error handling, `thiserror` for custom errors\n- Use `serde` for serialization/deserialization\n- Config stored at `~/.localpipeline/config.toml`\n- Agent state stored at `~/.localpipeline/agents.json`\n- Activity log at `~/.localpipeline/agent-activity.jsonl`\n\n## Testing\n- Run: `cargo test`\n\n## Commit Format\n- Short imperative subject line (e.g., \"Add login validation\")\n- Reference the work item ID in the commit body\n\n## Agent Identity\nYou are **");
    r.append(agent.display_name());
    r.append("**, an autonomous agent working in a git worktree.\nYour changes will be pushed directly to main.\n\n### Personality: ");
    r.append(p.tagline);
    r.append("\n- **Focus**: ");
    r.append(p.focus);
    r.append("\n- **Traits**: ");
    append_joined_slices(&mut r, &p.traits, ", ");
    r.append("\n- **Working style**: ");
    r.append(p.system_prompt);
    r.append("\n");
    r
}

/// The prompt for a conversational message to an agent, with the task it is
/// working on when there is one.
pub open spec fn message_prompt_of(agent: AgentName, message: Seq<char>, task: Option<Seq<char>>) -> Seq<char> {
    match task {
        Some(context) => "You are "@
        + display_str(agent)
        + ", an agent in a team dashboard CLI called \"work\".\nYour personality: "@
        + tagline_of(agent)
        + " \u{2014} "@
        + focus_of(agent)
        + "\n\nYou are currently working on: "@
        + context
        + "\n\nThe user has sent you this message:\n"@
        + message
        + "\n\nRespond concisely and helpfully. If you need more information from the user, ask clearly.\nIf you're given feedback on your work, acknowledge it and explain what you'll do.\nIf asked a question, answer directly.\nKeep responses under 200 words."@,
        None => "You are "@
        + display_str(agent)
        + ", an agent in a team dashboard CLI called \"work\".\nYour personality: "@
        + tagline_of(agent)
        + " \u{2014} "@
        + focus_of(agent)
        + "\n\nThe user has sent you this message:\n"@
        + message
        + "\n\nRespond concisely and helpfully. If you need more information from the user, ask clearly.\nKeep responses under 200 words."@,
    }
}

/// Builds the prompt for a conversational message to an agent.
pub fn message_prompt(agent: AgentName, message: &str, task_context: Option<&str>) -> (r: String)
    ensures
        r@ == message_prompt_of(agent, message@, opt_slice_view(task_context)),
{
    let p = personality(agent);
    match task_context {
        Some(context) => {
    let mut r = String::from_str("You are ");
    r.append(agent.display_name());
    r.append(", an agent in a team dashboard CLI called \"work\".\nYour personality: ");
    r.append(p.tagline);
    r.append(" \u{2014} ");
    r.append(p.focus);
    r.append("\n\nYou are currently working on: ");
    r.append(context);
    r.append("\n\nThe user has sent you this message:\n");
    r.append(message);
    r.append("\n\nRespond concisely and helpfully. If you need more information from the user, ask clearly.\nIf you're given feedback on your work, acknowledge it and explain what you'll do.\nIf asked a question, answer directly.\nKeep responses under 200 words.");
            r
        },
        None => {
    let mut r = String::from_str("You are ");
    r.append(agent.display_name());
    r.append(", an agent in a team dashboard CLI called \"work\".\nYour personality: ");
    r.append(p.tagline);
    r.append(" \u{2014} ");
    r.append(p.focus);
    r.append("\n\nThe user has sent you this message:\n");
    r.append(message);
    r.append("\n\nRespond concisely and helpfully. If you need more information from the user, ask clearly.\nKeep responses under 200 words.");
            r
        },
    }
}

/// The prompt that asks an agent to apply feedback to its work.
pub open spec fn feedback_prompt_of(agent: AgentName, message: Seq<char>, context: Seq<char>) -> Seq<char> {
    "You are "@
        + display_str(agent)
        + ", an agent working on: "@
        + context
        + "\nYour personality: "@
        + tagline_of(agent)
        + " \u{2014} "@
        + focus_of(agent)
        + "\n\nThe user has given you this feedback:\n"@
        + message
        + "\n\nApply this feedback to the codebase. Make the necessary changes, test them, commit and push.\nAfter making changes, briefly summarize what you did."@
}

/// Builds the prompt that asks an agent to apply feedback to its work.
pub fn feedback_prompt(agent: AgentName, message: &str, context: &str) -> (r: String)
    ensures
        r@ == feedback_prompt_of(agent, message@, context@),
{
    let p = personality(agent);
    let mut r = String::from_str("You are ");
    r.append(agent.display_name());
    r.append(", an agent working on: ");
    r.append(context);
    r.append("\nYour personality: ");
    r.append(p.tagline);
    r.append(" \u{2014} ");
    r.append(p.focus);
    r.append("\n\nThe user has given you this feedback:\n");
    r.append(message);
    r.append("\n\nApply this feedback to the codebase. Make the necessary changes, test them, commit and push.\nAfter making changes, briefly summarize what you did.");
    r
}

} // verus!
