//! Conversation messages exchanged with the model and stored in sessions.

use vstd::prelude::*;

verus! {

/// A tool call requested by the assistant.
#[derive(Debug)]
pub struct ToolCall {
    pub id: String,
    pub name: String,
    /// The call's arguments as the model sent them (JSON text).
    pub arguments: String,
}

pub struct ToolCallView {
    pub id: Seq<char>,
    pub name: Seq<char>,
    pub arguments: Seq<char>,
}

impl View for ToolCall {
    type V = ToolCallView;

    open spec fn view(&self) -> ToolCallView {
        ToolCallView { id: self.id@, name: self.name@, arguments: self.arguments@ }
    }
}

/// Views of a sequence of tool calls.
pub open spec fn call_views(calls: Seq<ToolCall>) -> Seq<ToolCallView> {
    calls.map_values(|c: ToolCall| c@)
}

impl ToolCall {
    /// A copy of this call.
    pub fn duplicate(&self) -> (r: ToolCall)
        ensures
            r@ == self@,
    {
        ToolCall { id: self.id.clone(), name: self.name.clone(), arguments: self.arguments.clone() }
    }
}

/// Copies a list of tool calls.
pub fn duplicate_calls(calls: &[ToolCall]) -> (r: Vec<ToolCall>)
    ensures
        call_views(r@) == call_views(calls@),
{
    let mut r: Vec<ToolCall> = Vec::new();
    let mut i: usize = 0;
    while i < calls.len()
        invariant
            i <= calls@.len(),
            call_views(r@) == call_views(calls@.take(i as int)),
        decreases calls@.len() - i,
    {
        let c = calls[i].duplicate();
        let ghost before = r@;
        r.push(c);
        proof {
            assert(call_views(r@) =~= call_views(before).push(c@));
            assert(calls@.take(i + 1) =~= calls@.take(i as int).push(calls@[i as int]));
            assert(call_views(calls@.take(i + 1)) =~= call_views(calls@.take(i as int)).push(
                calls@[i as int]@,
            ));
        }
        i += 1;
    }
    assert(calls@.take(calls@.len() as int) =~= calls@);
    r
}

/// One message of a conversation.
#[derive(Debug)]
pub enum Message {
    System { content: String },
    User { content: String },
    Assistant { content: String, tool_calls: Vec<ToolCall> },
    ToolResult { tool_call_id: String, name: String, content: String },
}

pub enum MessageView {
    System { content: Seq<char> },
    User { content: Seq<char> },
    Assistant { content: Seq<char>, tool_calls: Seq<ToolCallView> },
    ToolResult { tool_call_id: Seq<char>, name: Seq<char>, content: Seq<char> },
}

impl View for Message {
    type V = MessageView;

    open spec fn view(&self) -> MessageView {
        match self {
            Message::System { content } => MessageView::System { content: content@ },
            Message::User { content } => MessageView::User { content: content@ },
            Message::Assistant { content, tool_calls } => MessageView::Assistant {
                content: content@,
                tool_calls: call_views(tool_calls@),
            },
            Message::ToolResult { tool_call_id, name, content } => MessageView::ToolResult {
                tool_call_id: tool_call_id@,
                name: name@,
                content: content@,
            },
        }
    }
}

/// Views of a sequence of messages.
pub open spec fn message_views(m: Seq<Message>) -> Seq<MessageView> {
    m.map_values(|x: Message| x@)
}

impl MessageView {
    /// The text content of a message.
    pub open spec fn content(self) -> Seq<char> {
        match self {
            MessageView::System { content } => content,
            MessageView::User { content } => content,
            MessageView::Assistant { content, .. } => content,
            MessageView::ToolResult { content, .. } => content,
        }
    }

    /// The tool calls of an assistant message; empty for other messages.
    pub open spec fn tool_calls(self) -> Seq<ToolCallView> {
        match self {
            MessageView::Assistant { tool_calls, .. } => tool_calls,
            _ => Seq::empty(),
        }
    }

    pub open spec fn is_system(self) -> bool {
        self is System
    }
}

impl Message {
    /// A system message.
    pub fn system(content: String) -> (m: Message)
        ensures
            m@ == (MessageView::System { content: content@ }),
    {
        Message::System { content }
    }

    /// A user message.
    pub fn user(content: &str) -> (m: Message)
        ensures
            m@ == (MessageView::User { content: content@ }),
    {
        Message::User { content: crate::text::copy_str(content) }
    }

    /// An assistant message with the tool calls it requested.
    pub fn assistant_with_tool_calls(content: String, tool_calls: Vec<ToolCall>) -> (m: Message)
        ensures
            m@ == (MessageView::Assistant { content: content@, tool_calls: call_views(tool_calls@) }),
    {
        Message::Assistant { content, tool_calls }
    }

    /// The result of one tool call.
    pub fn tool_result(tool_call_id: String, name: String, content: String) -> (m: Message)
        ensures
            m@ == (MessageView::ToolResult {
                tool_call_id: tool_call_id@,
                name: name@,
                content: content@,
            }),
    {
        Message::ToolResult { tool_call_id, name, content }
    }

    /// The text content of this message.
    pub fn content(&self) -> (s: &str)
        ensures
            s@ == self@.content(),
    {
        match self {
            Message::System { content } => content.as_str(),
            Message::User { content } => content.as_str(),
            Message::Assistant { content, .. } => content.as_str(),
            Message::ToolResult { content, .. } => content.as_str(),
        }
    }

    /// The tool calls of an assistant message; empty for other messages.
    pub fn tool_calls(&self) -> (c: &[ToolCall])
        ensures
            call_views(c@) == self@.tool_calls(),
    {
        match self {
            Message::Assistant { tool_calls, .. } => tool_calls.as_slice(),
            _ => {
                let empty: &[ToolCall] = &[];
                assert(call_views(empty@) =~= Seq::<ToolCallView>::empty());
                empty
            },
        }
    }

    /// True for a system message.
    pub fn is_system(&self) -> (b: bool)
        ensures
            b == self@.is_system(),
    {
        match self {
            Message::System { .. } => true,
            _ => false,
        }
    }

    /// A copy of this message.
    pub fn duplicate(&self) -> (m: Message)
        ensures
            m@ == self@,
    {
        match self {
            Message::System { content } => Message::System { content: content.clone() },
            Message::User { content } => Message::User { content: content.clone() },
            Message::Assistant { content, tool_calls } => Message::Assistant {
                content: content.clone(),
                tool_calls: duplicate_calls(tool_calls.as_slice()),
            },
            Message::ToolResult { tool_call_id, name, content } => Message::ToolResult {
                tool_call_id: tool_call_id.clone(),
                name: name.clone(),
                content: content.clone(),
            },
        }
    }
}

} // verus!
