use vstd::prelude::*;
use vstd::string::{StrSliceExecFns, StringExecFns};

use crate::agent::{name_str, AgentName, AgentStatus};
use crate::clock::now_clock;
use crate::text::{chars_of, has_prefix, starts_with_at, string_of, trim_start, trim_start_of};

verus! {

/// Who wrote a chat message.
#[derive(Debug, Clone, Copy, PartialEq, Eq, Structural)]
pub enum ChatSender {
    User,
    Agent(AgentName),
    System,
}

/// One message of the chat panel, stamped with the time of day.
#[derive(Debug, Clone)]
pub struct ChatMessage {
    pub sender: ChatSender,
    pub text: String,
    pub timestamp: String,
}

impl ChatMessage {
    pub fn user(text: String) -> (r: ChatMessage)
        ensures
            r.sender == ChatSender::User,
            r.text == text,
    {
        ChatMessage { sender: ChatSender::User, text, timestamp: now_clock() }
    }

    pub fn agent(name: AgentName, text: String) -> (r: ChatMessage)
        ensures
            r.sender == ChatSender::Agent(name),
            r.text == text,
    {
        ChatMessage { sender: ChatSender::Agent(name), text, timestamp: now_clock() }
    }

    pub fn system(text: String) -> (r: ChatMessage)
        ensures
            r.sender == ChatSender::System,
            r.text == text,
    {
        ChatMessage { sender: ChatSender::System, text, timestamp: now_clock() }
    }
}

/// The first agent, in pool order, whose name begins `rest`.
pub open spec fn named_prefix(rest: Seq<char>) -> Option<AgentName> {
    if has_prefix(rest, name_str(AgentName::Ember)) {
        Some(AgentName::Ember)
    } else if has_prefix(rest, name_str(AgentName::Flow)) {
        Some(AgentName::Flow)
    } else if has_prefix(rest, name_str(AgentName::Tempest)) {
        Some(AgentName::Tempest)
    } else if has_prefix(rest, name_str(AgentName::Terra)) {
        Some(AgentName::Terra)
    } else {
        None
    }
}

/// Whether `rest` begins with the agent's name followed by a space or nothing.
pub open spec fn addresses(rest: Seq<char>, n: AgentName) -> bool {
    has_prefix(rest, name_str(n)) && (rest.len() == name_str(n).len() || rest[name_str(n).len() as int]
        == ' ')
}

/// The first agent, in pool order, that `rest` addresses as a whole word.
pub open spec fn addressed(rest: Seq<char>) -> Option<AgentName> {
    if addresses(rest, AgentName::Ember) {
        Some(AgentName::Ember)
    } else if addresses(rest, AgentName::Flow) {
        Some(AgentName::Flow)
    } else if addresses(rest, AgentName::Tempest) {
        Some(AgentName::Tempest)
    } else if addresses(rest, AgentName::Terra) {
        Some(AgentName::Terra)
    } else {
        None
    }
}

pub open spec fn is_mention(text: Seq<char>) -> bool {
    text.len() > 0 && text[0] == '@'
}

/// The agent that a message is sent to: the first whose name follows a
/// leading '@'.
pub open spec fn target_of(text: Seq<char>) -> Option<AgentName> {
    if is_mention(text) {
        named_prefix(text.drop_first())
    } else {
        None
    }
}

/// A message without its leading `@agent` and the whitespace after it.
pub open spec fn body_of(text: Seq<char>) -> Seq<char> {
    match target_of(text) {
        Some(n) => trim_start_of(text.subrange(1 + name_str(n).len() as int, text.len() as int)),
        None => text,
    }
}

fn prefixed_name(v: &Vec<char>) -> (r: Option<AgentName>)
    requires
        v@.len() >= 1,
    ensures
        r == named_prefix(v@.subrange(1, v@.len() as int)),
{
    if starts_with_at(v, 1, AgentName::Ember.as_str()) {
        Some(AgentName::Ember)
    } else if starts_with_at(v, 1, AgentName::Flow.as_str()) {
        Some(AgentName::Flow)
    } else if starts_with_at(v, 1, AgentName::Tempest.as_str()) {
        Some(AgentName::Tempest)
    } else if starts_with_at(v, 1, AgentName::Terra.as_str()) {
        Some(AgentName::Terra)
    } else {
        None
    }
}

/// The agent a chat line is addressed to, if it starts with `@name`.
pub fn extract_agent_target(text: &str) -> (r: Option<AgentName>)
    ensures
        r == target_of(text@),
{
    let v = chars_of(text);
    if v.len() == 0 || v[0] != '@' {
        return None;
    }
    assert(v@.subrange(1, v@.len() as int) =~= text@.drop_first());
    prefixed_name(&v)
}

/// The body of a chat line, without its `@name` prefix and the whitespace
/// after it.
pub fn strip_agent_prefix(text: &str) -> (r: String)
    ensures
        r@ == body_of(text@),
{
    let v = chars_of(text);
    if v.len() == 0 || v[0] != '@' {
        return String::from_str(text);
    }
    assert(v@.subrange(1, v@.len() as int) =~= text@.drop_first());
    match prefixed_name(&v) {
        Some(n) => {
            let start = 1 + n.as_str().unicode_len();
            let rest = string_of(&v, start, v.len());
            trim_start(rest.as_str())
        },
        None => String::from_str(text),
    }
}

fn addresses_at(v: &Vec<char>, n: AgentName) -> (r: bool)
    requires
        v@.len() >= 1,
    ensures
        r == addresses(v@.subrange(1, v@.len() as int), n),
{
    let total = v.len();
    if !starts_with_at(v, 1, n.as_str()) {
        return false;
    }
    let after = 1 + n.as_str().unicode_len();
    after == v.len() || v[after] == ' '
}

/// The agent that an input line addresses: `@name` followed by a space or the
/// end of the line.
pub fn detect_agent_prefix(input: &str) -> (r: Option<AgentName>)
    ensures
        r == (if is_mention(input@) {
            addressed(input@.drop_first())
        } else {
            None
        }),
{
    let v = chars_of(input);
    if v.len() == 0 || v[0] != '@' {
        return None;
    }
    assert(v@.subrange(1, v@.len() as int) =~= input@.drop_first());
    if addresses_at(&v, AgentName::Ember) {
        Some(AgentName::Ember)
    } else if addresses_at(&v, AgentName::Flow) {
        Some(AgentName::Flow)
    } else if addresses_at(&v, AgentName::Tempest) {
        Some(AgentName::Tempest)
    } else if addresses_at(&v, AgentName::Terra) {
        Some(AgentName::Terra)
    } else {
        None
    }
}

/// Whether a partial name completes to the agent's name.
pub open spec fn completes(partial: Seq<char>, n: AgentName) -> bool {
    has_prefix(name_str(n), partial) && partial.len() < name_str(n).len()
}

/// The input line completed to `@name ` for the first agent, in pool order,
/// whose name the text after the '@' begins and is shorter than.
pub open spec fn completion_of(input: Seq<char>) -> Option<Seq<char>> {
    if !is_mention(input) {
        None
    } else if completes(input.drop_first(), AgentName::Ember) {
        Some("@"@ + name_str(AgentName::Ember) + " "@)
    } else if completes(input.drop_first(), AgentName::Flow) {
        Some("@"@ + name_str(AgentName::Flow) + " "@)
    } else if completes(input.drop_first(), AgentName::Tempest) {
        Some("@"@ + name_str(AgentName::Tempest) + " "@)
    } else if completes(input.drop_first(), AgentName::Terra) {
        Some("@"@ + name_str(AgentName::Terra) + " "@)
    } else {
        None
    }
}

fn completes_exec(partial: &str, n: AgentName) -> (r: bool)
    ensures
        r == completes(partial@, n),
{
    let name = chars_of(n.as_str());
    assert(name@.subrange(0, name@.len() as int) =~= name@);
    starts_with_at(&name, 0, partial) && partial.unicode_len() < name.len()
}

fn mention_of(n: AgentName) -> (r: String)
    ensures
        r@ == "@"@ + name_str(n) + " "@,
{
    let mut r = String::from_str("@");
    r.append(n.as_str());
    r.append(" ");
    r
}

/// Completes a partial `@name` in the input line, if an agent's name extends it.
pub fn autocomplete_agent(input: &str) -> (r: Option<String>)
    ensures
        match r {
            Some(s) => completion_of(input@) == Some(s@),
            None => completion_of(input@) is None,
        },
{
    let v = chars_of(input);
    if v.len() == 0 || v[0] != '@' {
        return None;
    }
    let partial = string_of(&v, 1, v.len());
    assert(partial@ =~= input@.drop_first());
    if completes_exec(partial.as_str(), AgentName::Ember) {
        Some(mention_of(AgentName::Ember))
    } else if completes_exec(partial.as_str(), AgentName::Flow) {
        Some(mention_of(AgentName::Flow))
    } else if completes_exec(partial.as_str(), AgentName::Tempest) {
        Some(mention_of(AgentName::Tempest))
    } else if completes_exec(partial.as_str(), AgentName::Terra) {
        Some(mention_of(AgentName::Terra))
    } else {
        None
    }
}

/// How a message to an agent is handled.
#[derive(Debug, Clone, Copy, PartialEq, Eq, Structural)]
pub enum ReplyMode {
    /// A read-only conversation.
    Conversation,
    /// The agent applies the message to its finished or failed work.
    ApplyFeedback,
}

/// A message to an agent that is Done or in Error is feedback it applies to
/// its work; to any other agent it is a conversation.
pub fn reply_mode(status: AgentStatus) -> (r: ReplyMode)
    ensures
        r == (if status == AgentStatus::Done || status == AgentStatus::Error {
            ReplyMode::ApplyFeedback
        } else {
            ReplyMode::Conversation
        }),
{
    match status {
        AgentStatus::Done | AgentStatus::Error => ReplyMode::ApplyFeedback,
        _ => ReplyMode::Conversation,
    }
}

} // verus!
