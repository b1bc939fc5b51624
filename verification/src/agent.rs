//! The agent turn: the decisions of one user prompt's round trip through the
//! model and the tools, as a state machine that a frontend drives.
//!
//! The frontend performs each requested action (calling the model, asking for
//! approval, running a tool, persisting a message) and feeds the answer back.

use vstd::prelude::*;
use crate::events::{AgentEvent, EventView, event_views};
use crate::json::{json_is_valid, json_parses};
use crate::messages::{Message, MessageView, ToolCall, ToolCallView, call_views, duplicate_calls};
use crate::text::{blank, copy_str, first_line_spec, is_blank, chars_of, index_of_spec, lemma_index_of};
use vstd::string::*;
use crate::tools::{ToolOutput, ToolOutputView};

verus! {

/// A count of the messages in memory, for frontends.
#[derive(Debug, Default)]
pub struct AgentState {
    pub messages_len: usize,
}

/// The first line of `text`, or `""` when it has none.
pub fn first_line(text: &str) -> (r: &str)
    ensures
        r@ == first_line_spec(text@),
{
    let v = chars_of(text);
    let mut i: usize = 0;
    while i < v.len() && v[i] != '\n'
        invariant
            i <= v@.len(),
            v@ == text@,
            forall|j: int| 0 <= j < i ==> v@[j] != '\n',
        decreases v@.len() - i,
    {
        i += 1;
    }
    proof {
        lemma_index_of(text@, '\n');
        if i < v@.len() {
            assert(index_of_spec(text@, '\n') == i) by {
                if index_of_spec(text@, '\n') < i {
                    assert(text@[index_of_spec(text@, '\n')] == '\n');
                }
            }
        } else {
            assert(index_of_spec(text@, '\n') < 0) by {
                if index_of_spec(text@, '\n') >= 0 {
                    assert(text@[index_of_spec(text@, '\n')] == '\n');
                }
            }
        }
    }
    if v.len() == 0 {
        return text.substring_char(0, 0);
    }
    let end = if i > 0 && v[i - 1] == '\r' && i < v.len() { i - 1 } else { i };
    proof {
        if i == v@.len() {
            assert(text@.subrange(0, i as int) =~= text@);
        } else if end < i {
            assert(text@.take(i as int).drop_last() =~= text@.subrange(0, end as int));
        } else {
            assert(text@.take(i as int) =~= text@.subrange(0, end as int));
        }
    }
    text.substring_char(0, end)
}

/// The most model calls one turn makes before it gives up.
pub const MAX_TOOL_ROUNDS: usize = 8;

/// What the frontend must do next.
#[derive(Debug)]
pub enum TurnAction {
    /// Persist the message to the session, if any, and append it to the conversation.
    Record(Message),
    /// Hand the event to the frontend.
    Emit(AgentEvent),
    /// Send the conversation to the model and feed back its reply.
    CallModel,
    /// Ask whether the tool may run and feed back the answer.
    AskApproval { name: String, args: String },
    /// Run the tool and feed back its output.
    RunTool { name: String, args: String },
    /// The turn is over; this is the assistant's final text.
    Finish(String),
    /// The turn failed with this message.
    Fail(String),
}

pub enum ActionView {
    Record(MessageView),
    Emit(EventView),
    CallModel,
    AskApproval { name: Seq<char>, args: Seq<char> },
    RunTool { name: Seq<char>, args: Seq<char> },
    Finish(Seq<char>),
    Fail(Seq<char>),
}

impl View for TurnAction {
    type V = ActionView;

    open spec fn view(&self) -> ActionView {
        match self {
            TurnAction::Record(m) => ActionView::Record(m@),
            TurnAction::Emit(e) => ActionView::Emit(e@),
            TurnAction::CallModel => ActionView::CallModel,
            TurnAction::AskApproval { name, args } => ActionView::AskApproval { name: name@, args: args@ },
            TurnAction::RunTool { name, args } => ActionView::RunTool { name: name@, args: args@ },
            TurnAction::Finish(t) => ActionView::Finish(t@),
            TurnAction::Fail(t) => ActionView::Fail(t@),
        }
    }
}

pub open spec fn action_views(a: Seq<TurnAction>) -> Seq<ActionView> {
    a.map_values(|x: TurnAction| x@)
}

/// What the frontend feeds back.
#[derive(Debug)]
pub enum TurnInput {
    /// The model's reply to `CallModel`.
    ModelReply(Message),
    /// The answer to `AskApproval`.
    Approval(bool),
    /// The output of `RunTool`.
    ToolResult(ToolOutput),
}

pub enum InputView {
    ModelReply(MessageView),
    Approval(bool),
    ToolResult(ToolOutputView),
}

impl View for TurnInput {
    type V = InputView;

    open spec fn view(&self) -> InputView {
        match self {
            TurnInput::ModelReply(m) => InputView::ModelReply(m@),
            TurnInput::Approval(b) => InputView::Approval(*b),
            TurnInput::ToolResult(o) => InputView::ToolResult(o@),
        }
    }
}

/// Where the turn stands.
#[derive(Debug, Clone, Copy, PartialEq, Eq, Structural)]
pub enum TurnPhase {
    AwaitingReply,
    AwaitingApproval,
    AwaitingOutput,
    Done,
}

/// The state of one turn.
#[derive(Debug)]
pub struct AgentTurn {
    /// Model calls requested so far.
    pub rounds: usize,
    /// Tool calls of the latest assistant reply.
    pub pending: Vec<ToolCall>,
    /// Index of the tool call in progress.
    pub next: usize,
    pub phase: TurnPhase,
}

/// The message a denied tool call returns to the model.
pub open spec fn denied_text(name: Seq<char>) -> Seq<char> {
    "tool execution denied by user: "@ + name
}

/// The failure for tool arguments that are not JSON.
pub open spec fn invalid_args_text(name: Seq<char>) -> Seq<char> {
    "invalid JSON arguments for "@ + name
}

/// The failure once the model has been called `MAX_TOOL_ROUNDS` times.
pub open spec fn round_limit_text() -> Seq<char> {
    "agent stopped after 8 tool rounds to avoid an infinite loop"@
}

/// Number of `CallModel` actions in `a`.
pub open spec fn model_calls(a: Seq<ActionView>) -> nat
    decreases a.len(),
{
    if a.len() == 0 {
        0
    } else {
        model_calls(a.drop_last()) + if a.last() is CallModel { 1nat } else { 0nat }
    }
}

/// The actions that begin tool call `c`: a start event and an approval
/// request, or a failure when its arguments are not JSON.
pub open spec fn begin_tool_actions(c: ToolCallView) -> Seq<ActionView> {
    if json_parses(c.arguments) {
        seq![
            ActionView::Emit(EventView::ToolStarted { id: c.id, name: c.name, args: c.arguments }),
            ActionView::AskApproval { name: c.name, args: c.arguments },
        ]
    } else {
        seq![ActionView::Fail(invalid_args_text(c.name))]
    }
}

/// The actions that end tool call `c` with output `out`: the tool's own
/// events, a finish event, and the tool result message.
pub open spec fn end_tool_actions(c: ToolCallView, out: ToolOutputView) -> Seq<ActionView> {
    out.events.map_values(|e: EventView| ActionView::Emit(e)) + seq![
        ActionView::Emit(EventView::ToolFinished {
            id: c.id,
            name: c.name,
            output: out.content,
            is_error: out.is_error,
        }),
        ActionView::Record(MessageView::ToolResult { tool_call_id: c.id, name: c.name, content: out.content }),
    ]
}

/// What follows the end of the tool call at `index` of `calls`: the next call,
/// another model call, or the round-limit failure.
pub open spec fn after_tool_actions(calls: Seq<ToolCallView>, index: nat, rounds: nat) -> Seq<ActionView> {
    if index + 1 < calls.len() {
        begin_tool_actions(calls[index + 1int])
    } else if rounds < MAX_TOOL_ROUNDS {
        seq![ActionView::CallModel]
    } else {
        seq![ActionView::Fail(round_limit_text())]
    }
}

/// Where the turn stands after the tool call at `index` of `calls` ended:
/// at the next call (awaiting approval, or done when its arguments are not
/// JSON), awaiting the model, or done at the round limit.
pub open spec fn phase_after_tool(calls: Seq<ToolCallView>, index: nat, rounds: nat) -> TurnPhase {
    if index + 1 < calls.len() {
        if json_parses(calls[index + 1int].arguments) { TurnPhase::AwaitingApproval } else { TurnPhase::Done }
    } else if rounds < MAX_TOOL_ROUNDS {
        TurnPhase::AwaitingReply
    } else {
        TurnPhase::Done
    }
}

/// The actions that answer a model reply `m`.
pub open spec fn reply_actions(m: MessageView) -> Seq<ActionView> {
    let text_event = if is_blank(m.content()) {
        Seq::<ActionView>::empty()
    } else {
        seq![ActionView::Emit(EventView::AssistantText { text: m.content() })]
    };
    let rest = if m.tool_calls().len() == 0 {
        seq![ActionView::Finish(m.content())]
    } else {
        begin_tool_actions(m.tool_calls()[0])
    };
    text_event + seq![ActionView::Record(m)] + rest
}

/// The output recorded for a denied tool call.
pub open spec fn denied_output(name: Seq<char>) -> ToolOutputView {
    ToolOutputView { content: denied_text(name), is_error: true, events: Seq::empty() }
}

proof fn lemma_model_calls_append(a: Seq<ActionView>, b: Seq<ActionView>)
    ensures
        model_calls(a + b) == model_calls(a) + model_calls(b),
    decreases b.len(),
{
    if b.len() == 0 {
        assert(a + b =~= a);
    } else {
        lemma_model_calls_append(a, b.drop_last());
        assert((a + b).drop_last() =~= a + b.drop_last());
    }
}

proof fn lemma_no_model_calls(a: Seq<ActionView>)
    requires
        forall|i: int| 0 <= i < a.len() ==> !(a[i] is CallModel),
    ensures
        model_calls(a) == 0,
    decreases a.len(),
{
    if a.len() > 0 {
        lemma_no_model_calls(a.drop_last());
    }
}

proof fn lemma_model_calls_tool(c: ToolCallView, out: ToolOutputView, calls: Seq<ToolCallView>, index: nat, rounds: nat)
    ensures
        model_calls(end_tool_actions(c, out) + after_tool_actions(calls, index, rounds))
            == model_calls(after_tool_actions(calls, index, rounds)),
{
    lemma_model_calls_append(end_tool_actions(c, out), after_tool_actions(calls, index, rounds));
    lemma_no_model_calls(end_tool_actions(c, out));
}

impl AgentTurn {
    /// The turn's invariant.
    pub open spec fn wf(&self) -> bool {
        &&& self.rounds <= MAX_TOOL_ROUNDS
        &&& (self.phase is AwaitingApproval || self.phase is AwaitingOutput) ==> self.next
            < self.pending@.len()
        &&& self.phase is AwaitingReply ==> self.rounds >= 1
    }

    pub open spec fn pending_views(&self) -> Seq<ToolCallView> {
        call_views(self.pending@)
    }

    /// Starts a turn for `prompt`: record the user message and call the model.
    pub fn start(prompt: &str) -> (r: (AgentTurn, Vec<TurnAction>))
        ensures
            r.0.wf(),
            r.0.rounds == 1,
            r.0.phase == TurnPhase::AwaitingReply,
            action_views(r.1@) == seq![
                ActionView::Record(MessageView::User { content: prompt@ }),
                ActionView::CallModel,
            ],
    {
        let mut actions: Vec<TurnAction> = Vec::new();
        actions.push(TurnAction::Record(Message::user(prompt)));
        actions.push(TurnAction::CallModel);
        let turn = AgentTurn { rounds: 1, pending: Vec::new(), next: 0, phase: TurnPhase::AwaitingReply };
        assert(action_views(actions@) =~= seq![
            ActionView::Record(MessageView::User { content: prompt@ }),
            ActionView::CallModel,
        ]);
        (turn, actions)
    }

    /// The tool call in progress.
    pub open spec fn current(&self) -> ToolCallView {
        self.pending_views()[self.next as int]
    }

    /// Feeds one answer of the frontend into the turn and returns what to do
    /// next. An input that does not fit the phase changes nothing.
    pub fn step(&mut self, input: TurnInput) -> (actions: Vec<TurnAction>)
        requires
            old(self).wf(),
        ensures
            final(self).wf(),
            final(self).rounds == old(self).rounds + model_calls(action_views(actions@)),
            match (old(self).phase, input@) {
                (TurnPhase::AwaitingReply, InputView::ModelReply(m)) => {
                    &&& action_views(actions@) == reply_actions(m)
                    &&& m.tool_calls().len() == 0 ==> final(self).phase == TurnPhase::Done
                    &&& m.tool_calls().len() > 0 ==> final(self).pending_views() == m.tool_calls()
                        && final(self).next == 0
                        && final(self).phase == if json_parses(m.tool_calls()[0].arguments) {
                            TurnPhase::AwaitingApproval
                        } else {
                            TurnPhase::Done
                        }
                },
                (TurnPhase::AwaitingApproval, InputView::Approval(true)) => {
                    &&& action_views(actions@) == seq![
                        ActionView::RunTool { name: old(self).current().name, args: old(self).current().arguments },
                    ]
                    &&& final(self).phase == TurnPhase::AwaitingOutput
                    &&& final(self).pending_views() == old(self).pending_views()
                    &&& final(self).next == old(self).next
                },
                (TurnPhase::AwaitingApproval, InputView::Approval(false)) => {
                    &&& action_views(actions@) == end_tool_actions(old(self).current(), denied_output(old(self).current().name))
                        + after_tool_actions(old(self).pending_views(), old(self).next as nat, old(self).rounds as nat)
                    &&& final(self).phase == phase_after_tool(old(self).pending_views(), old(self).next as nat, old(self).rounds as nat)
                    &&& final(self).pending_views() == old(self).pending_views()
                    &&& old(self).next + 1 < old(self).pending@.len() ==> final(self).next == old(self).next + 1
                },
                (TurnPhase::AwaitingOutput, InputView::ToolResult(out)) => {
                    &&& action_views(actions@) == end_tool_actions(old(self).current(), out)
                        + after_tool_actions(old(self).pending_views(), old(self).next as nat, old(self).rounds as nat)
                    &&& final(self).phase == phase_after_tool(old(self).pending_views(), old(self).next as nat, old(self).rounds as nat)
                    &&& final(self).pending_views() == old(self).pending_views()
                    &&& old(self).next + 1 < old(self).pending@.len() ==> final(self).next == old(self).next + 1
                },
                _ => {
                    &&& actions@.len() == 0
                    &&& final(self).phase == old(self).phase
                    &&& final(self).pending_views() == old(self).pending_views()
                    &&& final(self).next == old(self).next
                },
            },
    {
        let mut actions: Vec<TurnAction> = Vec::new();
        match input {
            TurnInput::ModelReply(m) => {
                if self.phase != TurnPhase::AwaitingReply {
                    assert(action_views(actions@) =~= Seq::<ActionView>::empty());
                    return actions;
                }
                let text = copy_str(m.content());
                let calls = duplicate_calls(m.tool_calls());
                if !blank(text.as_str()) {
                    actions.push(TurnAction::Emit(AgentEvent::AssistantText { text: text.clone() }));
                }
                let ghost head = action_views(actions@);
                let ghost mv = m@;
                actions.push(TurnAction::Record(m));
                assert(action_views(actions@) =~= head + seq![ActionView::Record(mv)]);
                if calls.len() == 0 {
                    let ghost recorded = action_views(actions@);
                    actions.push(TurnAction::Finish(text));
                    self.phase = TurnPhase::Done;
                    assert(action_views(actions@) =~= reply_actions(mv));
                    assert(model_calls(action_views(actions@)) == 0) by {
                        reveal_with_fuel(model_calls, 4);
                    }
                } else {
                    self.pending = calls;
                    self.next = 0;
                    let ghost recorded = action_views(actions@);
                    self.begin_tool(&mut actions);
                    assert(action_views(actions@) =~= reply_actions(mv));
                    assert(model_calls(action_views(actions@)) == 0) by {
                        reveal_with_fuel(model_calls, 5);
                    }
                }
                actions
            },
            TurnInput::Approval(approved) => {
                if self.phase != TurnPhase::AwaitingApproval {
                    assert(action_views(actions@) =~= Seq::<ActionView>::empty());
                    return actions;
                }
                let call = &self.pending[self.next];
                if approved {
                    actions.push(TurnAction::RunTool { name: call.name.clone(), args: call.arguments.clone() });
                    self.phase = TurnPhase::AwaitingOutput;
                    assert(action_views(actions@) =~= seq![
                        ActionView::RunTool { name: old(self).current().name, args: old(self).current().arguments },
                    ]);
                    assert(model_calls(action_views(actions@)) == 0) by {
                        reveal_with_fuel(model_calls, 2);
                    }
                } else {
                    let mut msg = copy_str("tool execution denied by user: ");
                    msg.push_str(call.name.as_str());
                    let events: Vec<AgentEvent> = Vec::new();
                    assert(call@ == old(self).current());
                    assert(event_views(events@) =~= Seq::<EventView>::empty());
                    let out = ToolOutput { content: msg, is_error: true, events };
                    assert(out@.content =~= denied_output(old(self).current().name).content);
                    assert(out@ == denied_output(old(self).current().name));
                    self.end_tool(out, &mut actions);
                    assert(action_views(actions@) =~= end_tool_actions(old(self).current(), denied_output(old(self).current().name))
                        + after_tool_actions(old(self).pending_views(), old(self).next as nat, old(self).rounds as nat));
                    proof { lemma_model_calls_tool(old(self).current(), denied_output(old(self).current().name),
                        old(self).pending_views(), old(self).next as nat, old(self).rounds as nat); }
                }
                actions
            },
            TurnInput::ToolResult(out) => {
                if self.phase != TurnPhase::AwaitingOutput {
                    assert(action_views(actions@) =~= Seq::<ActionView>::empty());
                    return actions;
                }
                let ghost ov = out@;
                self.end_tool(out, &mut actions);
                assert(action_views(actions@) =~= end_tool_actions(old(self).current(), ov)
                    + after_tool_actions(old(self).pending_views(), old(self).next as nat, old(self).rounds as nat));
                proof { lemma_model_calls_tool(old(self).current(), ov,
                    old(self).pending_views(), old(self).next as nat, old(self).rounds as nat); }
                actions
            },
        }
    }

    /// Begins the pending tool call at `self.next`.
    fn begin_tool(&mut self, actions: &mut Vec<TurnAction>)
        requires
            old(self).next < old(self).pending@.len(),
            old(self).rounds <= MAX_TOOL_ROUNDS,
        ensures
            action_views(final(actions)@) == action_views(old(actions)@) + begin_tool_actions(
                old(self).pending_views()[old(self).next as int],
            ),
            final(self).rounds == old(self).rounds,
            final(self).pending_views() == old(self).pending_views(),
            final(self).pending@.len() == old(self).pending@.len(),
            final(self).next == old(self).next,
            final(self).phase == if json_parses(old(self).pending_views()[old(self).next as int].arguments) {
                TurnPhase::AwaitingApproval
            } else {
                TurnPhase::Done
            },
    {
        let ghost c = self.pending_views()[self.next as int];
        let ghost before = action_views(actions@);
        let call = &self.pending[self.next];
        assert(call@ == c);
        if json_is_valid(call.arguments.as_str()) {
            actions.push(TurnAction::Emit(AgentEvent::ToolStarted {
                id: call.id.clone(),
                name: call.name.clone(),
                args: call.arguments.clone(),
            }));
            actions.push(TurnAction::AskApproval { name: call.name.clone(), args: call.arguments.clone() });
            self.phase = TurnPhase::AwaitingApproval;
            assert(action_views(actions@) =~= before + begin_tool_actions(c));
        } else {
            let mut msg = copy_str("invalid JSON arguments for ");
            msg.push_str(call.name.as_str());
            actions.push(TurnAction::Fail(msg));
            self.phase = TurnPhase::Done;
            assert(action_views(actions@) =~= before + begin_tool_actions(c));
        }
    }

    /// Ends the tool call in progress with `out`, then moves on.
    fn end_tool(&mut self, out: ToolOutput, actions: &mut Vec<TurnAction>)
        requires
            old(self).wf(),
            old(self).next < old(self).pending@.len(),
        ensures
            final(self).wf(),
            action_views(final(actions)@) == action_views(old(actions)@) + end_tool_actions(
                old(self).pending_views()[old(self).next as int],
                out@,
            ) + after_tool_actions(old(self).pending_views(), old(self).next as nat, old(self).rounds as nat),
            final(self).rounds == old(self).rounds + model_calls(after_tool_actions(
                old(self).pending_views(),
                old(self).next as nat,
                old(self).rounds as nat,
            )),
            final(self).phase == phase_after_tool(old(self).pending_views(), old(self).next as nat, old(self).rounds as nat),
            final(self).pending_views() == old(self).pending_views(),
            old(self).next + 1 < old(self).pending@.len() ==> final(self).next == old(self).next + 1,
    {
        let ghost c = self.pending_views()[self.next as int];
        let ghost before = action_views(actions@);
        let ToolOutput { content, is_error, events } = out;
        let mut i: usize = 0;
        while i < events.len()
            invariant
                i <= events@.len(),
                action_views(actions@) == before + event_views(events@).take(i as int).map_values(
                    |e: EventView| ActionView::Emit(e),
                ),
            decreases events@.len() - i,
        {
            let e = events[i].duplicate();
            let ghost prev = action_views(actions@);
            actions.push(TurnAction::Emit(e));
            proof {
                assert(event_views(events@).take(i + 1) =~= event_views(events@).take(i as int).push(
                    events@[i as int]@,
                ));
                assert(action_views(actions@) =~= prev.push(ActionView::Emit(e@)));
                assert(event_views(events@).take(i + 1).map_values(|e: EventView| ActionView::Emit(e))
                    =~= event_views(events@).take(i as int).map_values(|e: EventView| ActionView::Emit(e)).push(
                    ActionView::Emit(e@),
                ));
            }
            i += 1;
        }
        assert(event_views(events@).take(events@.len() as int) =~= event_views(events@));
        let ghost emitted = event_views(events@).map_values(|e: EventView| ActionView::Emit(e));
        assert(action_views(actions@) == before + emitted);
        assert(out@.events == event_views(events@));
        let n = self.pending.len();
        let call = &self.pending[self.next];
        assert(call@ == c);
        let ghost mid = action_views(actions@);
        actions.push(TurnAction::Emit(AgentEvent::ToolFinished {
            id: call.id.clone(),
            name: call.name.clone(),
            output: content.clone(),
            is_error,
        }));
        actions.push(TurnAction::Record(Message::tool_result(call.id.clone(), call.name.clone(), content)));
        let ghost ended = action_views(actions@);
        let ghost tail = seq![
            ActionView::Emit(EventView::ToolFinished {
                id: c.id,
                name: c.name,
                output: out@.content,
                is_error: out@.is_error,
            }),
            ActionView::Record(MessageView::ToolResult { tool_call_id: c.id, name: c.name, content: out@.content }),
        ];
        assert(ended =~= mid + tail);
        assert(end_tool_actions(c, out@) == emitted + tail);
        assert(ended =~= before + end_tool_actions(c, out@));
        if self.next + 1 < n {
            self.next = self.next + 1;
            self.begin_tool(actions);
            assert(model_calls(begin_tool_actions(self.pending_views()[self.next as int])) == 0) by {
                let b = begin_tool_actions(self.pending_views()[self.next as int]);
                reveal_with_fuel(model_calls, 3);
            }
        } else if self.rounds < MAX_TOOL_ROUNDS {
            actions.push(TurnAction::CallModel);
            self.rounds = self.rounds + 1;
            self.phase = TurnPhase::AwaitingReply;
            assert(action_views(actions@) =~= ended + seq![ActionView::CallModel]);
            assert(model_calls(seq![ActionView::CallModel]) == 1) by {
                reveal_with_fuel(model_calls, 2);
            }
        } else {
            actions.push(TurnAction::Fail(copy_str("agent stopped after 8 tool rounds to avoid an infinite loop")));
            self.phase = TurnPhase::Done;
            assert(action_views(actions@) =~= ended + seq![ActionView::Fail(round_limit_text())]);
            assert(model_calls(seq![ActionView::Fail(round_limit_text())]) == 0) by {
                reveal_with_fuel(model_calls, 2);
            }
        }
    }
}

/// A call the user denied is never run: what follows the denial records the
/// denial as the call's result and moves on, with no `RunTool` among it.
pub proof fn denied_call_never_runs(c: ToolCallView, calls: Seq<ToolCallView>, index: nat, rounds: nat)
    ensures
        ({
            let a = end_tool_actions(c, denied_output(c.name)) + after_tool_actions(calls, index, rounds);
            &&& forall|i: int| 0 <= i < a.len() ==> !(#[trigger] a[i] is RunTool)
            &&& a[0] == ActionView::Emit(EventView::ToolFinished {
                id: c.id,
                name: c.name,
                output: denied_text(c.name),
                is_error: true,
            })
            &&& a[1] == ActionView::Record(MessageView::ToolResult {
                tool_call_id: c.id,
                name: c.name,
                content: denied_text(c.name),
            })
        }),
{
    let e = end_tool_actions(c, denied_output(c.name));
    let t = after_tool_actions(calls, index, rounds);
    let a = e + t;
    assert(denied_output(c.name).events.map_values(|x: EventView| ActionView::Emit(x)) =~= Seq::<ActionView>::empty());
    assert(e.len() == 2);
    assert(a[1] == ActionView::Record(MessageView::ToolResult { tool_call_id: c.id, name: c.name, content: denied_text(c.name) }));
    assert forall|i: int| 0 <= i < a.len() implies !(#[trigger] a[i] is RunTool) by {
        if i >= 2 {
            assert(a[i] == t[i - 2]);
        }
    }
}

/// A tool call with JSON arguments is announced, then the user is asked once;
/// an approved call runs next, and its output is reported (its own events,
/// then the finish event) and recorded as the call's result.
pub proof fn call_is_announced_asked_then_reported(c: ToolCallView, out: ToolOutputView)
    requires
        json_parses(c.arguments),
    ensures
        begin_tool_actions(c) == seq![
            ActionView::Emit(EventView::ToolStarted { id: c.id, name: c.name, args: c.arguments }),
            ActionView::AskApproval { name: c.name, args: c.arguments },
        ],
        ({
            let e = end_tool_actions(c, out);
            let k = out.events.len() as int;
            &&& e.len() == k + 2
            &&& forall|i: int| 0 <= i < k ==> #[trigger] e[i] == ActionView::Emit(out.events[i])
            &&& e[k] == ActionView::Emit(EventView::ToolFinished {
                id: c.id,
                name: c.name,
                output: out.content,
                is_error: out.is_error,
            })
            &&& e[k + 1] == ActionView::Record(MessageView::ToolResult {
                tool_call_id: c.id,
                name: c.name,
                content: out.content,
            })
        }),
{
}

/// When a reply's last tool call ends, the turn asks the model again below
/// the round limit and stops with the round-limit error at it; since each
/// model call counts one round and rounds never pass the limit, a turn calls
/// the model at most `MAX_TOOL_ROUNDS` times.
pub proof fn round_limit_ends_turn(calls: Seq<ToolCallView>, index: nat, rounds: nat)
    requires
        index + 1 >= calls.len(),
    ensures
        rounds < MAX_TOOL_ROUNDS ==> after_tool_actions(calls, index, rounds) == seq![ActionView::CallModel]
            && phase_after_tool(calls, index, rounds) == TurnPhase::AwaitingReply,
        rounds >= MAX_TOOL_ROUNDS ==> after_tool_actions(calls, index, rounds) == seq![ActionView::Fail(round_limit_text())]
            && phase_after_tool(calls, index, rounds) == TurnPhase::Done,
{
}

} // verus!
