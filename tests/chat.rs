use workflow::agent::{AgentName, AgentStatus};
use workflow::chat::{
    autocomplete_agent, detect_agent_prefix, extract_agent_target, reply_mode, strip_agent_prefix,
    ChatMessage, ChatSender, ReplyMode,
};

#[test]
fn target_is_first_matching_name() {
    assert_eq!(extract_agent_target("@ember fix it"), Some(AgentName::Ember));
    assert_eq!(extract_agent_target("@terrace"), Some(AgentName::Terra));
    assert_eq!(extract_agent_target("ember fix it"), None);
    assert_eq!(extract_agent_target("@bob"), None);
    assert_eq!(extract_agent_target(""), None);
}

#[test]
fn strip_prefix_removes_name_and_spaces() {
    assert_eq!(strip_agent_prefix("@flow   please review"), "please review");
    assert_eq!(strip_agent_prefix("@flow"), "");
    assert_eq!(strip_agent_prefix("hello"), "hello");
    assert_eq!(strip_agent_prefix("@nobody hi"), "@nobody hi");
}

#[test]
fn detect_prefix_needs_word_end() {
    assert_eq!(detect_agent_prefix("@tempest go"), Some(AgentName::Tempest));
    assert_eq!(detect_agent_prefix("@tempest"), Some(AgentName::Tempest));
    assert_eq!(detect_agent_prefix("@terrace"), None);
    assert_eq!(detect_agent_prefix("tempest"), None);
}

#[test]
fn chat_messages_record_sender() {
    let m = ChatMessage::agent(AgentName::Flow, "done".to_string());
    assert_eq!(m.sender, ChatSender::Agent(AgentName::Flow));
    assert_eq!(m.text, "done");
    assert_eq!(m.timestamp.len(), 8);
    assert_eq!(ChatMessage::user("hi".to_string()).sender, ChatSender::User);
    assert_eq!(ChatMessage::system("x".to_string()).sender, ChatSender::System);
}

#[test]
fn autocomplete_extends_partial_names() {
    assert_eq!(autocomplete_agent("@fl"), Some("@flow ".to_string()));
    assert_eq!(autocomplete_agent("@"), Some("@ember ".to_string()));
    assert_eq!(autocomplete_agent("@te"), Some("@tempest ".to_string()));
    assert_eq!(autocomplete_agent("@terr"), Some("@terra ".to_string()));
    assert_eq!(autocomplete_agent("@flow"), None);
    assert_eq!(autocomplete_agent("fl"), None);
}

#[test]
fn finished_or_failed_agents_apply_feedback() {
    assert_eq!(reply_mode(AgentStatus::Done), ReplyMode::ApplyFeedback);
    assert_eq!(reply_mode(AgentStatus::Error), ReplyMode::ApplyFeedback);
    assert_eq!(reply_mode(AgentStatus::Working), ReplyMode::Conversation);
    assert_eq!(reply_mode(AgentStatus::Idle), ReplyMode::Conversation);
}
