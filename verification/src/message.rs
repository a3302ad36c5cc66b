use std::collections::VecDeque;
use vstd::prelude::*;

verus! {

/// Who a chat message comes from.
#[derive(Debug, Clone, Copy, PartialEq, Eq, Structural)]
pub enum MessageRole {
    User,
    Assistant,
    System,
    Tool,
}

/// The function part of a tool call requested by the model: the tool's name
/// and its arguments as JSON text.
#[derive(Debug, Clone)]
pub struct ToolCallFunction {
    pub name: String,
    pub arguments: String,
}

/// A tool call requested by the model.
#[derive(Debug, Clone)]
pub struct ToolCall {
    pub function: ToolCallFunction,
}

/// The mathematical content of a tool call.
pub struct ToolCallView {
    pub name: Seq<char>,
    pub arguments: Seq<char>,
}

impl View for ToolCall {
    type V = ToolCallView;

    open spec fn view(&self) -> ToolCallView {
        ToolCallView { name: self.function.name@, arguments: self.function.arguments@ }
    }
}

/// A message of a chat conversation.
#[derive(Debug, Clone)]
pub struct ChatMessage {
    pub role: MessageRole,
    pub content: String,
    pub tool_calls: Vec<ToolCall>,
    pub thinking: Option<String>,
}

/// The mathematical content of a chat message.
pub struct ChatMessageView {
    pub role: MessageRole,
    pub content: Seq<char>,
    pub tool_calls: Seq<ToolCallView>,
    pub thinking: Option<Seq<char>>,
}

pub open spec fn option_string_view(s: Option<String>) -> Option<Seq<char>> {
    match s {
        Some(t) => Some(t@),
        None => None,
    }
}

pub open spec fn tool_calls_view(calls: Seq<ToolCall>) -> Seq<ToolCallView> {
    calls.map_values(|c: ToolCall| c@)
}

impl View for ChatMessage {
    type V = ChatMessageView;

    open spec fn view(&self) -> ChatMessageView {
        ChatMessageView {
            role: self.role,
            content: self.content@,
            tool_calls: tool_calls_view(self.tool_calls@),
            thinking: option_string_view(self.thinking),
        }
    }
}

/// A message with the given role and text, no tool calls and no thinking.
pub open spec fn plain_message(role: MessageRole, content: Seq<char>) -> ChatMessageView {
    ChatMessageView {
        role,
        content,
        tool_calls: Seq::empty(),
        thinking: None,
    }
}

impl ChatMessage {
    pub fn new(role: MessageRole, content: String) -> (r: Self)
        ensures
            r@ == plain_message(role, content@),
            r.role == role,
            r.content == content,
            r.tool_calls@ == Seq::<ToolCall>::empty(),
            r.thinking is None,
    {
        let r = ChatMessage { role, content, tool_calls: Vec::new(), thinking: None };
        assert(tool_calls_view(r.tool_calls@) =~= Seq::<ToolCallView>::empty());
        r
    }

    pub fn user(content: String) -> (r: Self)
        ensures
            r@ == plain_message(MessageRole::User, content@),
            r.role == MessageRole::User,
            r.content == content,
            r.tool_calls@ == Seq::<ToolCall>::empty(),
            r.thinking is None,
    {
        Self::new(MessageRole::User, content)
    }

    pub fn assistant(content: String) -> (r: Self)
        ensures
            r@ == plain_message(MessageRole::Assistant, content@),
            r.role == MessageRole::Assistant,
            r.content == content,
            r.tool_calls@ == Seq::<ToolCall>::empty(),
            r.thinking is None,
    {
        Self::new(MessageRole::Assistant, content)
    }

    pub fn system(content: String) -> (r: Self)
        ensures
            r@ == plain_message(MessageRole::System, content@),
            r.role == MessageRole::System,
            r.content == content,
            r.tool_calls@ == Seq::<ToolCall>::empty(),
            r.thinking is None,
    {
        Self::new(MessageRole::System, content)
    }

    pub fn tool(content: String) -> (r: Self)
        ensures
            r@ == plain_message(MessageRole::Tool, content@),
            r.role == MessageRole::Tool,
            r.content == content,
            r.tool_calls@ == Seq::<ToolCall>::empty(),
            r.thinking is None,
    {
        Self::new(MessageRole::Tool, content)
    }
}

/// Copies a list of tool calls, name and arguments of each, into a queue
/// that hands them out in the same order.
pub fn queue_tool_calls(calls: &Vec<ToolCall>) -> (r: VecDeque<ToolCall>)
    ensures
        tool_calls_view(r@) == tool_calls_view(calls@),
        r@.len() == calls@.len(),
        forall|i: int| 0 <= i < r@.len() ==> (#[trigger] r@[i])@ == calls@[i]@,
{
    let mut r: VecDeque<ToolCall> = VecDeque::new();
    let n = calls.len();
    for i in 0..n
        invariant
            n == calls@.len(),
            r@.len() == i,
            forall|j: int| 0 <= j < i ==> #[trigger] r@[j]@ == calls@[j]@,
    {
        let c = &calls[i];
        r.push_back(
            ToolCall {
                function: ToolCallFunction {
                    name: c.function.name.clone(),
                    arguments: c.function.arguments.clone(),
                },
            },
        );
    }
    assert(tool_calls_view(r@) =~= tool_calls_view(calls@));
    r
}

/// A conversation history that messages can be appended to.
pub trait ChatHistory {
    /// The messages of the history, oldest first.
    spec fn history(&self) -> Seq<ChatMessageView>;

    /// Appends a message at the end of the history.
    fn push(&mut self, message: ChatMessage)
        ensures
            final(self).history() == old(self).history().push(message@),
    ;

    /// The messages of the history, oldest first.
    fn messages(&self) -> (r: &[ChatMessage])
        ensures
            r@.map_values(|m: ChatMessage| m@) == self.history(),
    ;
}

impl ChatHistory for Vec<ChatMessage> {
    open spec fn history(&self) -> Seq<ChatMessageView> {
        self@.map_values(|m: ChatMessage| m@)
    }

    fn push(&mut self, message: ChatMessage) {
        let ghost m = message@;
        Vec::push(self, message);
        assert(self@.map_values(|m: ChatMessage| m@) =~= old(self)@.map_values(
            |m: ChatMessage| m@,
        ).push(m));
    }

    fn messages(&self) -> (r: &[ChatMessage]) {
        self.as_slice()
    }
}

} // verus!
