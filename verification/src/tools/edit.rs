//! The edit tool: replace one exact, unique snippet of a text file.

use vstd::prelude::*;
use crate::diff::{render_terminal_diff, unified_patch, render_terminal_diff_spec, unified_patch_spec};
use crate::events::{AgentEvent, EventView};
use crate::text::{chars_of, copy_str, count_matches, count_spec, contains_spec, decimal, decimal_spec, find_spec, lemma_find_spec, matches_at, replace_first, replace_first_spec, same_text};
use crate::tools::{object_schema, string_param, ParamSpec, ToolOutput, ToolOutputView, ToolSpec};

verus! {

/// The tool as offered to the model.
pub fn spec() -> (t: ToolSpec)
    ensures
        t.name == "edit",
        t.description == "Edit a UTF-8 text file by replacing one exact, unique text snippet.",
        t.parameters.required@ == seq!["path", "old_text", "new_text"],
        t.parameters.properties@.len() == 3,
        t.parameters.properties@[0].name == "path",
        t.parameters.properties@[1].name == "old_text",
        t.parameters.properties@[2].name == "new_text",
{
    let mut props: Vec<ParamSpec> = Vec::new();
    props.push(string_param("path", "Path to the file to edit"));
    props.push(string_param("old_text", "Exact text to replace. Must appear exactly once."));
    props.push(string_param("new_text", "Replacement text"));
    let mut required: Vec<&'static str> = Vec::new();
    required.push("path");
    required.push("old_text");
    required.push("new_text");
    assert(required@ =~= seq!["path", "old_text", "new_text"]);
    ToolSpec {
        name: "edit",
        description: "Edit a UTF-8 text file by replacing one exact, unique text snippet.",
        parameters: object_schema(props, required),
    }
}

/// Why an edit was refused.
#[derive(Debug)]
pub enum EditError {
    EmptyOldText,
    IdenticalTexts,
    NotFound { path: String },
    NotUnique { path: String, count: usize },
}

pub enum EditErrorView {
    EmptyOldText,
    IdenticalTexts,
    NotFound { path: Seq<char> },
    NotUnique { path: Seq<char>, count: nat },
}

impl View for EditError {
    type V = EditErrorView;

    open spec fn view(&self) -> EditErrorView {
        match self {
            EditError::EmptyOldText => EditErrorView::EmptyOldText,
            EditError::IdenticalTexts => EditErrorView::IdenticalTexts,
            EditError::NotFound { path } => EditErrorView::NotFound { path: path@ },
            EditError::NotUnique { path, count } => EditErrorView::NotUnique {
                path: path@,
                count: *count as nat,
            },
        }
    }
}

/// The checks made on the arguments before the file is read.
pub open spec fn edit_request_spec(old_text: Seq<char>, new_text: Seq<char>) -> Result<(), EditErrorView> {
    if old_text.len() == 0 {
        Err(EditErrorView::EmptyOldText)
    } else if old_text == new_text {
        Err(EditErrorView::IdenticalTexts)
    } else {
        Ok(())
    }
}

/// The outcome of editing `content` (the file at `path`): the argument checks,
/// then `old_text` must occur exactly once, and that occurrence is replaced.
pub open spec fn edit_spec(
    path: Seq<char>,
    content: Seq<char>,
    old_text: Seq<char>,
    new_text: Seq<char>,
) -> Result<Seq<char>, EditErrorView> {
    match edit_request_spec(old_text, new_text) {
        Err(e) => Err(e),
        Ok(()) => {
            let c = count_spec(content, old_text);
            if c == 0 {
                Err(EditErrorView::NotFound { path })
            } else if c > 1 {
                Err(EditErrorView::NotUnique { path, count: c })
            } else {
                Ok(replace_first_spec(content, old_text, new_text))
            }
        },
    }
}

/// The message shown for an edit error.
pub open spec fn edit_error_message(e: EditErrorView) -> Seq<char> {
    match e {
        EditErrorView::EmptyOldText => "old_text must not be empty"@,
        EditErrorView::IdenticalTexts => "old_text and new_text are identical"@,
        EditErrorView::NotFound { path } => "old_text was not found in "@ + path,
        EditErrorView::NotUnique { path, count } => "old_text appears "@ + decimal_spec(count)
            + " times in "@ + path + "; make it unique"@,
    }
}

impl EditError {
    /// The text shown to the model for this error.
    pub fn message(&self) -> (s: String)
        ensures
            s@ == edit_error_message(self@),
    {
        match self {
            EditError::EmptyOldText => copy_str("old_text must not be empty"),
            EditError::IdenticalTexts => copy_str("old_text and new_text are identical"),
            EditError::NotFound { path } => {
                let mut s = copy_str("old_text was not found in ");
                s.push_str(path.as_str());
                s
            },
            EditError::NotUnique { path, count } => {
                let mut s = copy_str("old_text appears ");
                let d = decimal(*count as u64);
                s.push_str(d.as_str());
                s.push_str(" times in ");
                s.push_str(path.as_str());
                s.push_str("; make it unique");
                s
            },
        }
    }
}

/// Checks the edit arguments before the file is read.
pub fn check_edit_request(old_text: &str, new_text: &str) -> (r: Result<(), EditError>)
    ensures
        r matches Ok(_) <==> edit_request_spec(old_text@, new_text@) is Ok,
        r matches Err(e) ==> edit_request_spec(old_text@, new_text@) == Err::<(), EditErrorView>(e@),
        r is Ok <==> (old_text@.len() > 0 && old_text@ != new_text@),
{
    if old_text.is_empty() {
        return Err(EditError::EmptyOldText);
    }
    if same_text(old_text, new_text) {
        return Err(EditError::IdenticalTexts);
    }
    Ok(())
}

/// Applies an edit to `content`, the current text of the file shown as `path`.
/// On success the result is `content` with its single occurrence of `old_text`
/// replaced by `new_text`.
pub fn apply_edit(path: &str, content: &str, old_text: &str, new_text: &str) -> (r: Result<String, EditError>)
    ensures
        match r {
            Ok(s) => edit_spec(path@, content@, old_text@, new_text@) == Ok::<Seq<char>, EditErrorView>(s@),
            Err(e) => edit_spec(path@, content@, old_text@, new_text@) == Err::<Seq<char>, EditErrorView>(e@),
        },
{
    check_edit_request(old_text, new_text)?;
    let v = chars_of(content);
    let p = chars_of(old_text);
    let matches = count_matches(v.as_slice(), p.as_slice());
    if matches == 0 {
        return Err(EditError::NotFound { path: copy_str(path) });
    }
    if matches > 1 {
        return Err(EditError::NotUnique { path: copy_str(path), count: matches });
    }
    Ok(replace_first(v.as_slice(), p.as_slice(), new_text))
}

/// The output of a successful edit of the file `path` (as the model named it),
/// shown as `display_path`: a message, a diff event and a file-changed event.
pub fn edited_output(path: &str, display_path: &str, old_content: &str, new_content: &str) -> (r: ToolOutput)
    ensures
        r@ == (ToolOutputView {
            content: "edited "@ + display_path@,
            is_error: false,
            events: seq![
                EventView::DiffReady {
                    path: display_path@,
                    patch: unified_patch_spec(path@, old_content@, new_content@),
                    rendered: render_terminal_diff_spec(old_content@, new_content@),
                },
                EventView::FileChanged { path: display_path@ },
            ],
        }),
{
    let patch = unified_patch(path, old_content, new_content);
    let rendered = render_terminal_diff(old_content, new_content);
    let mut content = copy_str("edited ");
    content.push_str(display_path);
    let mut events: Vec<AgentEvent> = Vec::new();
    events.push(AgentEvent::DiffReady { path: copy_str(display_path), patch, rendered });
    events.push(AgentEvent::FileChanged { path: copy_str(display_path) });
    let r = ToolOutput { content, is_error: false, events };
    assert(r@.events =~= seq![
        EventView::DiffReady {
            path: display_path@,
            patch: unified_patch_spec(path@, old_content@, new_content@),
            rendered: render_terminal_diff_spec(old_content@, new_content@),
        },
        EventView::FileChanged { path: display_path@ },
    ]);
    r
}

/// An accepted edit changes exactly the matched span: the old text is
/// `pre + old_text + post` and the new text is `pre + new_text + post`, and
/// `old_text` occurred nowhere else that a left-to-right scan would find it.
pub proof fn edit_changes_only_the_match(path: Seq<char>, content: Seq<char>, old_text: Seq<char>, new_text: Seq<char>)
    requires
        edit_spec(path, content, old_text, new_text) is Ok,
    ensures
        ({
            let k = find_spec(content, old_text);
            let result = edit_spec(path, content, old_text, new_text)->Ok_0;
            &&& 0 <= k
            &&& content == content.take(k) + old_text + content.skip(k + old_text.len())
            &&& result == content.take(k) + new_text + content.skip(k + old_text.len())
            &&& count_spec(content, old_text) == 1
            &&& contains_spec(result, new_text)
        }),
{
    lemma_find_spec(content, old_text);
    let k = find_spec(content, old_text);
    assert(count_spec(content, old_text) == 1);
    assert(k >= 0);
    assert(content.subrange(k, k + old_text.len()) == old_text);
    assert(content =~= content.take(k) + old_text + content.skip(k + old_text.len()));
    let result = content.take(k) + new_text + content.skip(k + old_text.len());
    assert(result.subrange(k, k + new_text.len()) =~= new_text);
    lemma_find_spec(result, new_text);
    if find_spec(result, new_text) < 0 {
        assert(matches_at(result, new_text, k));
    }
}

/// Undoing an edit: when the inserted text is where the edit put it and
/// occurs once, editing it back to the old text restores the file.
pub proof fn edit_then_reverse_edit_restores(path: Seq<char>, content: Seq<char>, old_text: Seq<char>, new_text: Seq<char>)
    requires
        edit_spec(path, content, old_text, new_text) is Ok,
        find_spec(edit_spec(path, content, old_text, new_text)->Ok_0, new_text) == find_spec(content, old_text),
        count_spec(edit_spec(path, content, old_text, new_text)->Ok_0, new_text) == 1,
    ensures
        edit_spec(path, edit_spec(path, content, old_text, new_text)->Ok_0, new_text, old_text)
            == Ok::<Seq<char>, EditErrorView>(content),
{
    edit_changes_only_the_match(path, content, old_text, new_text);
    let k = find_spec(content, old_text);
    let mid = edit_spec(path, content, old_text, new_text)->Ok_0;
    assert(new_text.len() > 0);
    lemma_find_spec(content, old_text);
    assert(matches_at(content, old_text, k));
    let pre = content.take(k);
    let post = content.skip(k + old_text.len());
    assert(pre.len() == k);
    assert(mid == pre + new_text + post);
    assert(mid.take(k) =~= pre);
    assert(mid.skip(k + new_text.len()) =~= post);
    assert(mid.take(k) + old_text + mid.skip(k + new_text.len()) =~= content);
}

/// An edit whose old text is non-empty, differs from the new text and occurs
/// exactly once succeeds, and its result is the content with that occurrence
/// (the first, and only non-overlapping, one) replaced by the new text.
pub proof fn unique_match_edit_succeeds(path: Seq<char>, content: Seq<char>, old_text: Seq<char>, new_text: Seq<char>)
    requires
        old_text.len() > 0,
        old_text != new_text,
        count_spec(content, old_text) == 1,
    ensures
        edit_spec(path, content, old_text, new_text) is Ok,
        exists|k: int| #![trigger matches_at(content, old_text, k)]
            matches_at(content, old_text, k)
            && (forall|j: int| 0 <= j < k ==> !matches_at(content, old_text, j))
            && edit_spec(path, content, old_text, new_text)->Ok_0
                == content.take(k) + new_text + content.skip(k + old_text.len()),
{
    lemma_find_spec(content, old_text);
    let k = find_spec(content, old_text);
    assert(k >= 0);
    assert(matches_at(content, old_text, k));
}

/// The arguments of an edit call.
#[derive(Debug, Clone)]
pub struct EditArgs {
    pub path: String,
    pub old_text: String,
    pub new_text: String,
}

} // verus!
