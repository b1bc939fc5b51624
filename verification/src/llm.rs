//! The OpenAI-compatible chat-completions protocol: the messages and tools a
//! request carries, the endpoints, the errors, and the assistant message read
//! from a reply. Sending the request is the caller's part.

use vstd::prelude::*;
use crate::messages::{call_views, Message, MessageView, ToolCall, ToolCallView, message_views};
use crate::text::{copy_str, decimal, decimal_spec, join, join_spec, same_text, views};
use crate::tools::ToolSpec;

verus! {

/// The provider a session talks to.
#[derive(Debug, Clone)]
pub struct ModelConfig {
    pub model: String,
    pub base_url: String,
    pub api_key: String,
}

/// A tool call as the protocol carries it; `kind` is `function`.
#[derive(Debug)]
pub struct ChatToolCall {
    pub id: String,
    pub kind: String,
    pub name: String,
    pub arguments: String,
}

/// A message as the protocol carries it.
#[derive(Debug)]
pub struct ChatMessage {
    pub role: String,
    pub content: Option<String>,
    pub tool_call_id: Option<String>,
    pub tool_calls: Option<Vec<ChatToolCall>>,
}

pub struct ChatCallView {
    pub id: Seq<char>,
    pub kind: Seq<char>,
    pub name: Seq<char>,
    pub arguments: Seq<char>,
}

pub struct ChatView {
    pub role: Seq<char>,
    pub content: Option<Seq<char>>,
    pub tool_call_id: Option<Seq<char>>,
    pub tool_calls: Option<Seq<ChatCallView>>,
}

impl View for ChatToolCall {
    type V = ChatCallView;

    open spec fn view(&self) -> ChatCallView {
        ChatCallView { id: self.id@, kind: self.kind@, name: self.name@, arguments: self.arguments@ }
    }
}

pub open spec fn chat_call_views(c: Seq<ChatToolCall>) -> Seq<ChatCallView> {
    c.map_values(|x: ChatToolCall| x@)
}

pub open spec fn opt_text(o: Option<String>) -> Option<Seq<char>> {
    match o {
        Some(s) => Some(s@),
        None => None,
    }
}

impl View for ChatMessage {
    type V = ChatView;

    open spec fn view(&self) -> ChatView {
        ChatView {
            role: self.role@,
            content: opt_text(self.content),
            tool_call_id: opt_text(self.tool_call_id),
            tool_calls: match self.tool_calls {
                Some(c) => Some(chat_call_views(c@)),
                None => None,
            },
        }
    }
}

pub open spec fn chat_views(m: Seq<ChatMessage>) -> Seq<ChatView> {
    m.map_values(|x: ChatMessage| x@)
}

/// A tool call in the protocol's form.
pub open spec fn wire_call(c: ToolCallView) -> ChatCallView {
    ChatCallView { id: c.id, kind: "function"@, name: c.name, arguments: c.arguments }
}

pub open spec fn wire_calls(c: Seq<ToolCallView>) -> Seq<ChatCallView> {
    c.map_values(|x: ToolCallView| wire_call(x))
}

/// A message in the protocol's form: an assistant's empty text and empty call
/// list are left out; a tool result carries the id of its call.
pub open spec fn chat_spec(m: MessageView) -> ChatView {
    match m {
        MessageView::System { content } => ChatView {
            role: "system"@, content: Some(content), tool_call_id: None, tool_calls: None,
        },
        MessageView::User { content } => ChatView {
            role: "user"@, content: Some(content), tool_call_id: None, tool_calls: None,
        },
        MessageView::Assistant { content, tool_calls } => ChatView {
            role: "assistant"@,
            content: if content.len() == 0 { None } else { Some(content) },
            tool_call_id: None,
            tool_calls: if tool_calls.len() == 0 { None } else { Some(wire_calls(tool_calls)) },
        },
        MessageView::ToolResult { tool_call_id, content, .. } => ChatView {
            role: "tool"@, content: Some(content), tool_call_id: Some(tool_call_id), tool_calls: None,
        },
    }
}

fn wire_tool_calls(calls: &[ToolCall]) -> (r: Vec<ChatToolCall>)
    ensures
        chat_call_views(r@) == wire_calls(call_views(calls@)),
{
    let mut r: Vec<ChatToolCall> = Vec::new();
    let mut i: usize = 0;
    while i < calls.len()
        invariant
            i <= calls@.len(),
            chat_call_views(r@) == wire_calls(call_views(calls@.take(i as int))),
        decreases calls@.len() - i,
    {
        let c = &calls[i];
        let w = ChatToolCall {
            id: c.id.clone(),
            kind: copy_str("function"),
            name: c.name.clone(),
            arguments: c.arguments.clone(),
        };
        let ghost before = r@;
        r.push(w);
        proof {
            assert(chat_call_views(r@) =~= chat_call_views(before).push(w@));
            assert(calls@.take(i + 1) =~= calls@.take(i as int).push(calls@[i as int]));
            assert(wire_calls(call_views(calls@.take(i + 1))) =~= wire_calls(call_views(calls@.take(i as int))).push(
                wire_call(calls@[i as int]@),
            ));
        }
        i += 1;
    }
    assert(calls@.take(calls@.len() as int) =~= calls@);
    r
}

/// The protocol form of one message.
pub fn to_chat_message(message: &Message) -> (r: ChatMessage)
    ensures
        r@ == chat_spec(message@),
{
    match message {
        Message::System { content } => ChatMessage {
            role: copy_str("system"),
            content: Some(content.clone()),
            tool_call_id: None,
            tool_calls: None,
        },
        Message::User { content } => ChatMessage {
            role: copy_str("user"),
            content: Some(content.clone()),
            tool_call_id: None,
            tool_calls: None,
        },
        Message::Assistant { content, tool_calls } => ChatMessage {
            role: copy_str("assistant"),
            content: if content.as_str().unicode_len() == 0 { None } else { Some(content.clone()) },
            tool_call_id: None,
            tool_calls: if tool_calls.len() == 0 { None } else { Some(wire_tool_calls(tool_calls.as_slice())) },
        },
        Message::ToolResult { tool_call_id, content, .. } => ChatMessage {
            role: copy_str("tool"),
            content: Some(content.clone()),
            tool_call_id: Some(tool_call_id.clone()),
            tool_calls: None,
        },
    }
}

/// The request body of a chat completion: the model, the conversation in the
/// protocol's form, and the tools unless there are none.
#[derive(Debug)]
pub struct ChatRequest {
    pub model: String,
    pub messages: Vec<ChatMessage>,
    pub tools: Option<Vec<ToolSpec>>,
}

pub fn chat_request(config: &ModelConfig, messages: &[Message], tools: Vec<ToolSpec>) -> (r: ChatRequest)
    ensures
        r.model@ == config.model@,
        chat_views(r.messages@) == message_views(messages@).map_values(|m: MessageView| chat_spec(m)),
        match r.tools {
            Some(t) => tools@.len() > 0 && t@ == tools@,
            None => tools@.len() == 0,
        },
{
    let mut out: Vec<ChatMessage> = Vec::new();
    let mut i: usize = 0;
    while i < messages.len()
        invariant
            i <= messages@.len(),
            chat_views(out@) == message_views(messages@.take(i as int)).map_values(|m: MessageView| chat_spec(m)),
        decreases messages@.len() - i,
    {
        let c = to_chat_message(&messages[i]);
        let ghost before = out@;
        out.push(c);
        proof {
            assert(chat_views(out@) =~= chat_views(before).push(c@));
            assert(messages@.take(i + 1) =~= messages@.take(i as int).push(messages@[i as int]));
            assert(message_views(messages@.take(i + 1)).map_values(|m: MessageView| chat_spec(m)) =~=
                message_views(messages@.take(i as int)).map_values(|m: MessageView| chat_spec(m)).push(chat_spec(messages@[i as int]@)));
        }
        i += 1;
    }
    assert(messages@.take(messages@.len() as int) =~= messages@);
    ChatRequest {
        model: config.model.clone(),
        messages: out,
        tools: if tools.len() == 0 { None } else { Some(tools) },
    }
}

/// `s` without its trailing slashes (`str::trim_end_matches('/')`).
pub open spec fn trim_slashes(s: Seq<char>) -> Seq<char>
    decreases s.len(),
{
    if s.len() > 0 && s.last() == '/' {
        trim_slashes(s.drop_last())
    } else {
        s
    }
}

/// The URL of an endpoint under `base_url`, e.g. `/chat/completions`.
pub fn endpoint_url(base_url: &str, path: &str) -> (r: String)
    ensures
        r@ == trim_slashes(base_url@) + path@,
{
    let v = crate::text::chars_of(base_url);
    let mut end: usize = v.len();
    assert(v@.take(end as int) =~= v@);
    while end > 0 && v[end - 1] == '/'
        invariant
            end <= v@.len(),
            trim_slashes(base_url@) == trim_slashes(v@.take(end as int)),
        decreases end,
    {
        assert(v@.take(end as int).drop_last() =~= v@.take(end - 1));
        end -= 1;
    }
    assert(v@.take(end as int) =~= v@.subrange(0, end as int));
    let mut r = crate::text::string_of_range(v.as_slice(), 0, end);
    proof {
        if end > 0 {
            assert(v@.take(end as int).last() != '/');
        }
    }
    r.push_str(path);
    r
}

/// The failure of a reply whose status is not a success: the provider's own
/// error message when the body carries one, else the body itself.
pub open spec fn status_error_spec(what: Seq<char>, status: Seq<char>, message: Option<Seq<char>>, body: Seq<char>) -> Seq<char> {
    what + " error ("@ + status + "): "@ + match message {
        Some(m) => m,
        None => body,
    }
}

pub fn status_error(what: &str, status: &str, message: Option<String>, body: &str) -> (r: String)
    ensures
        r@ == status_error_spec(what@, status@, opt_text(message), body@),
{
    let mut r = copy_str(what);
    r.push_str(" error (");
    r.push_str(status);
    r.push_str("): ");
    match message {
        Some(m) => r.push_str(m.as_str()),
        None => r.push_str(body),
    }
    r
}

/// The assistant part of one choice of a reply.
#[derive(Debug)]
pub struct ChoiceMessage {
    pub content: Option<String>,
    pub tool_calls: Option<Vec<ChatToolCall>>,
}

pub struct ChoiceView {
    pub content: Option<Seq<char>>,
    pub tool_calls: Option<Seq<ChatCallView>>,
}

impl View for ChoiceMessage {
    type V = ChoiceView;

    open spec fn view(&self) -> ChoiceView {
        ChoiceView {
            content: opt_text(self.content),
            tool_calls: match self.tool_calls {
                Some(c) => Some(chat_call_views(c@)),
                None => None,
            },
        }
    }
}

pub open spec fn call_of_wire(c: ChatCallView) -> ToolCallView {
    ToolCallView { id: c.id, name: c.name, arguments: c.arguments }
}

/// The assistant message a choice stands for: missing text reads as empty,
/// missing calls as none.
pub open spec fn assistant_of(c: ChoiceView) -> MessageView {
    MessageView::Assistant {
        content: match c.content { Some(t) => t, None => Seq::empty() },
        tool_calls: match c.tool_calls {
            Some(calls) => calls.map_values(|x: ChatCallView| call_of_wire(x)),
            None => Seq::empty(),
        },
    }
}

pub open spec fn no_choice_text() -> Seq<char> {
    "provider response did not include a choice"@
}

fn calls_of_wire(calls: Vec<ChatToolCall>) -> (r: Vec<ToolCall>)
    ensures
        call_views(r@) == chat_call_views(calls@).map_values(|x: ChatCallView| call_of_wire(x)),
{
    let mut r: Vec<ToolCall> = Vec::new();
    let mut i: usize = 0;
    while i < calls.len()
        invariant
            i <= calls@.len(),
            call_views(r@) == chat_call_views(calls@.take(i as int)).map_values(|x: ChatCallView| call_of_wire(x)),
        decreases calls@.len() - i,
    {
        let c = &calls[i];
        let t = ToolCall { id: c.id.clone(), name: c.name.clone(), arguments: c.arguments.clone() };
        let ghost before = r@;
        r.push(t);
        proof {
            assert(call_views(r@) =~= call_views(before).push(t@));
            assert(calls@.take(i + 1) =~= calls@.take(i as int).push(calls@[i as int]));
            assert(chat_call_views(calls@.take(i + 1)).map_values(|x: ChatCallView| call_of_wire(x)) =~=
                chat_call_views(calls@.take(i as int)).map_values(|x: ChatCallView| call_of_wire(x)).push(call_of_wire(calls@[i as int]@)));
        }
        i += 1;
    }
    assert(calls@.take(calls@.len() as int) =~= calls@);
    r
}

/// The assistant message of a reply: its first choice.
pub fn assistant_from_choices(choices: Vec<ChoiceMessage>) -> (r: Result<Message, String>)
    ensures
        match r {
            Ok(m) => choices@.len() > 0 && m@ == assistant_of(choices@[0]@),
            Err(e) => choices@.len() == 0 && e@ == no_choice_text(),
        },
{
    let mut choices = choices;
    if choices.len() == 0 {
        return Err(copy_str("provider response did not include a choice"));
    }
    let ghost first = choices@[0]@;
    let choice = choices.remove(0);
    let content = match choice.content {
        Some(t) => t,
        None => String::new(),
    };
    let calls = match choice.tool_calls {
        Some(c) => calls_of_wire(c),
        None => {
            let v: Vec<ToolCall> = Vec::new();
            assert(call_views(v@) =~= Seq::<ToolCallView>::empty());
            v
        },
    };
    assert(content@ =~= match first.content { Some(t) => t, None => Seq::<char>::empty() });
    let m = Message::assistant_with_tool_calls(content, calls);
    Ok(m)
}

/// An assistant message sent in the protocol's form and read back as a
/// reply's choice is the same message.
pub proof fn assistant_round_trip(content: Seq<char>, calls: Seq<ToolCallView>)
    ensures
        ({
            let wire = chat_spec(MessageView::Assistant { content, tool_calls: calls });
            assistant_of(ChoiceView { content: wire.content, tool_calls: wire.tool_calls })
                == MessageView::Assistant { content, tool_calls: calls }
        }),
{
    let wire = chat_spec(MessageView::Assistant { content, tool_calls: calls });
    if content.len() == 0 {
        assert(content =~= Seq::<char>::empty());
    }
    if calls.len() == 0 {
        assert(calls =~= Seq::<ToolCallView>::empty());
    } else {
        assert(wire_calls(calls).map_values(|x: ChatCallView| call_of_wire(x)) =~= calls);
    }
}

/// A model offered by the provider.
#[derive(Debug)]
pub struct ModelInfo {
    pub id: String,
    pub supported_endpoint_types: Vec<String>,
}

/// The index of the first model named `id`.
pub open spec fn first_model_named(models: Seq<ModelInfo>, id: Seq<char>) -> Option<int> {
    if exists|k: int| 0 <= k < models.len() && (#[trigger] models[k]).id@ == id {
        Some(choose|k: int| 0 <= k < models.len() && (#[trigger] models[k]).id@ == id
            && forall|j: int| 0 <= j < k ==> (#[trigger] models[j]).id@ != id)
    } else {
        None
    }
}

/// What the provider check reports of the selected model.
pub open spec fn model_report_spec(models: Seq<ModelInfo>, selected: Seq<char>) -> (Seq<Seq<char>>, bool) {
    match first_model_named(models, selected) {
        Some(k) => {
            let types = views(models[k].supported_endpoint_types@);
            (seq![if types.len() == 0 {
                "selected model: found"@
            } else {
                "selected model: found, supported endpoints: "@ + join_spec(types, ", "@)
            }], true)
        },
        None => (seq!["selected model: not found in /models"@, "available models:"@]
            + Seq::new(models.len(), |i: int| "- "@ + models[i].id@), false),
    }
}

proof fn lemma_first_model(models: Seq<ModelInfo>, id: Seq<char>, k: int)
    requires
        0 <= k < models.len(),
        models[k].id@ == id,
        forall|j: int| 0 <= j < k ==> (#[trigger] models[j]).id@ != id,
    ensures
        first_model_named(models, id) == Some(k),
{
    let c = choose|c: int| 0 <= c < models.len() && (#[trigger] models[c]).id@ == id
        && forall|j: int| 0 <= j < c ==> (#[trigger] models[j]).id@ != id;
    assert(0 <= c < models.len() && models[c].id@ == id && forall|j: int| 0 <= j < c ==> (#[trigger] models[j]).id@ != id);
    if c < k {
        assert(models[c].id@ != id);
    }
    if k < c {
        assert(models[k].id@ != id);
    }
}

/// The lines the provider check prints about the selected model, and whether
/// the model is offered; the count of models is printed before them.
pub fn model_report(models: &[ModelInfo], selected: &str) -> (r: (Vec<String>, bool))
    ensures
        (views(r.0@), r.1) == model_report_spec(models@, selected@),
{
    let mut k: usize = 0;
    while k < models.len() && !same_text(models[k].id.as_str(), selected)
        invariant
            k <= models@.len(),
            forall|j: int| 0 <= j < k ==> (#[trigger] models@[j]).id@ != selected@,
        decreases models@.len() - k,
    {
        k += 1;
    }
    let mut lines: Vec<String> = Vec::new();
    if k < models.len() {
        proof {
            lemma_first_model(models@, selected@, k as int);
        }
        let types = &models[k].supported_endpoint_types;
        if types.len() == 0 {
            lines.push(copy_str("selected model: found"));
        } else {
            let mut line = copy_str("selected model: found, supported endpoints: ");
            line.push_str(join(types.as_slice(), ", ").as_str());
            lines.push(line);
        }
        assert(views(lines@) =~= model_report_spec(models@, selected@).0);
        return (lines, true);
    }
    assert(first_model_named(models@, selected@) is None);
    lines.push(copy_str("selected model: not found in /models"));
    lines.push(copy_str("available models:"));
    let ghost want = model_report_spec(models@, selected@).0;
    let mut i: usize = 0;
    while i < models.len()
        invariant
            i <= models@.len(),
            want == seq!["selected model: not found in /models"@, "available models:"@]
                + Seq::new(models@.len(), |i: int| "- "@ + models@[i].id@),
            views(lines@) == want.take(i + 2),
        decreases models@.len() - i,
    {
        let mut line = copy_str("- ");
        line.push_str(models[i].id.as_str());
        let ghost before = views(lines@);
        lines.push(line);
        assert(views(lines@) =~= before.push(line@));
        assert(want.take(i + 3) =~= want.take(i + 2).push("- "@ + models@[i as int].id@));
        i += 1;
    }
    assert(want.take((models@.len() + 2) as int) =~= want);
    (lines, false)
}

pub open spec fn models_ok_line(n: nat) -> Seq<char> {
    "models endpoint: ok ("@ + decimal_spec(n) + " models)"@
}

/// The line reporting how many models the provider offers.
pub fn models_ok(count: usize) -> (r: String)
    ensures
        r@ == models_ok_line(count as nat),
{
    let mut r = copy_str("models endpoint: ok (");
    r.push_str(decimal(count as u64).as_str());
    r.push_str(" models)");
    r
}

} // verus!
