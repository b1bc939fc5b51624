//! The write tool: create or overwrite a text file.

use vstd::prelude::*;
use crate::diff::{render_terminal_diff, render_terminal_diff_spec, unified_patch, unified_patch_spec};
use crate::events::{AgentEvent, EventView};
use crate::text::{copy_str, same_text};
use crate::tools::{object_schema, string_param, ParamSpec, ToolOutput, ToolOutputView, ToolSpec};

verus! {

/// The tool as offered to the model.
pub fn spec() -> (t: ToolSpec)
    ensures
        t.name == "write",
        t.description == "Create or overwrite a UTF-8 text file. Prefer edit for small changes to existing files.",
        t.parameters.required@ == seq!["path", "content"],
        t.parameters.properties@.len() == 2,
        t.parameters.properties@[0].name == "path",
        t.parameters.properties@[1].name == "content",
{
    let mut props: Vec<ParamSpec> = Vec::new();
    props.push(string_param("path", "Path to write"));
    props.push(string_param("content", "Complete file content"));
    let mut required: Vec<&'static str> = Vec::new();
    required.push("path");
    required.push("content");
    assert(required@ =~= seq!["path", "content"]);
    ToolSpec {
        name: "write",
        description: "Create or overwrite a UTF-8 text file. Prefer edit for small changes to existing files.",
        parameters: object_schema(props, required),
    }
}

/// The events of a write: a diff when an existing file's content changed,
/// then the file-changed event.
pub open spec fn write_events(path: Seq<char>, display_path: Seq<char>, old: Option<Seq<char>>, new: Seq<char>) -> Seq<EventView> {
    let diff = match old {
        Some(o) => if o != new {
            seq![EventView::DiffReady {
                path: display_path,
                patch: unified_patch_spec(path, o, new),
                rendered: render_terminal_diff_spec(o, new),
            }]
        } else {
            Seq::empty()
        },
        None => Seq::empty(),
    };
    diff + seq![EventView::FileChanged { path: display_path }]
}

/// The output of writing `new` to the file `path` (as the model named it),
/// shown as `display_path`, whose previous content was `old` if it existed.
pub fn written_output(path: &str, display_path: &str, old: Option<&str>, new: &str) -> (r: ToolOutput)
    ensures
        r@ == (ToolOutputView {
            content: "wrote "@ + display_path@,
            is_error: false,
            events: write_events(path@, display_path@, match old { Some(o) => Some(o@), None => None }, new@),
        }),
{
    let mut events: Vec<AgentEvent> = Vec::new();
    if let Some(o) = old {
        if !same_text(o, new) {
            events.push(AgentEvent::DiffReady {
                path: copy_str(display_path),
                patch: unified_patch(path, o, new),
                rendered: render_terminal_diff(o, new),
            });
        }
    }
    events.push(AgentEvent::FileChanged { path: copy_str(display_path) });
    let mut content = copy_str("wrote ");
    content.push_str(display_path);
    let r = ToolOutput { content, is_error: false, events };
    assert(r@.events =~= write_events(path@, display_path@, match old { Some(o) => Some(o@), None => None }, new@));
    r
}

/// The arguments of a write call.
#[derive(Debug, Clone)]
pub struct WriteArgs {
    pub path: String,
    pub content: String,
}

} // verus!
