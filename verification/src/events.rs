//! Structured events emitted while the agent works, for frontends to render.

use vstd::prelude::*;

verus! {

#[derive(Debug)]
pub enum AgentEvent {
    AssistantText { text: String },
    /// A tool call is about to run; `args` is its JSON argument text.
    ToolStarted { id: String, name: String, args: String },
    ToolFinished { id: String, name: String, output: String, is_error: bool },
    DiffReady { path: String, patch: String, rendered: String },
    FileChanged { path: String },
    Error { message: String },
}

pub enum EventView {
    AssistantText { text: Seq<char> },
    ToolStarted { id: Seq<char>, name: Seq<char>, args: Seq<char> },
    ToolFinished { id: Seq<char>, name: Seq<char>, output: Seq<char>, is_error: bool },
    DiffReady { path: Seq<char>, patch: Seq<char>, rendered: Seq<char> },
    FileChanged { path: Seq<char> },
    Error { message: Seq<char> },
}

impl View for AgentEvent {
    type V = EventView;

    open spec fn view(&self) -> EventView {
        match self {
            AgentEvent::AssistantText { text } => EventView::AssistantText { text: text@ },
            AgentEvent::ToolStarted { id, name, args } => EventView::ToolStarted {
                id: id@,
                name: name@,
                args: args@,
            },
            AgentEvent::ToolFinished { id, name, output, is_error } => EventView::ToolFinished {
                id: id@,
                name: name@,
                output: output@,
                is_error: *is_error,
            },
            AgentEvent::DiffReady { path, patch, rendered } => EventView::DiffReady {
                path: path@,
                patch: patch@,
                rendered: rendered@,
            },
            AgentEvent::FileChanged { path } => EventView::FileChanged { path: path@ },
            AgentEvent::Error { message } => EventView::Error { message: message@ },
        }
    }
}

/// Views of a sequence of events.
pub open spec fn event_views(e: Seq<AgentEvent>) -> Seq<EventView> {
    e.map_values(|x: AgentEvent| x@)
}

impl AgentEvent {
    /// A copy of this event.
    pub fn duplicate(&self) -> (r: AgentEvent)
        ensures
            r@ == self@,
    {
        match self {
            AgentEvent::AssistantText { text } => AgentEvent::AssistantText { text: text.clone() },
            AgentEvent::ToolStarted { id, name, args } => AgentEvent::ToolStarted {
                id: id.clone(),
                name: name.clone(),
                args: args.clone(),
            },
            AgentEvent::ToolFinished { id, name, output, is_error } => AgentEvent::ToolFinished {
                id: id.clone(),
                name: name.clone(),
                output: output.clone(),
                is_error: *is_error,
            },
            AgentEvent::DiffReady { path, patch, rendered } => AgentEvent::DiffReady {
                path: path.clone(),
                patch: patch.clone(),
                rendered: rendered.clone(),
            },
            AgentEvent::FileChanged { path } => AgentEvent::FileChanged { path: path.clone() },
            AgentEvent::Error { message } => AgentEvent::Error { message: message.clone() },
        }
    }
}

} // verus!
