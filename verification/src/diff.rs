//! Line diffs between two texts, computed by the `similar` crate.

use vstd::prelude::*;
use similar::{ChangeTag, TextDiff};

verus! {

/// How a line changed between the old and the new text.
#[derive(Debug, Clone, Copy, PartialEq, Eq, Structural)]
pub enum ChangeKind {
    Delete,
    Insert,
    Equal,
}

/// One line of a line diff: its kind and its text as `similar` displays it
/// (the line with its newline; a final line without one gets a newline added).
#[derive(Debug)]
pub struct LineChange {
    pub kind: ChangeKind,
    pub text: String,
}

/// The sequence of line changes that `similar` computes to turn `old` into `new`.
pub uninterp spec fn line_changes(old: Seq<char>, new: Seq<char>) -> Seq<(ChangeKind, Seq<char>)>;

/// The unified diff text that `similar` writes for `old` to `new` under the
/// file headers `from` and `to`.
pub uninterp spec fn unified_diff_text(
    old: Seq<char>,
    new: Seq<char>,
    from: Seq<char>,
    to: Seq<char>,
) -> Seq<char>;

pub open spec fn change_views(v: Seq<LineChange>) -> Seq<(ChangeKind, Seq<char>)> {
    v.map_values(|c: LineChange| (c.kind, c.text@))
}

/// Calls `similar::TextDiff::from_lines(old, new).iter_all_changes()` and hands each
/// change out as its tag and its `Display` text. The result is named
/// `line_changes(old, new)`. For identical inputs `similar` emits only the common
/// prefix, so every change is `Equal`; nothing else about the diff is claimed.
#[verifier::external_body]
fn similar_line_changes(old: &str, new: &str) -> (r: Vec<LineChange>)
    ensures
        change_views(r@) == line_changes(old@, new@),
        old@ == new@ ==> forall|i: int| 0 <= i < r@.len() ==> r@[i].kind == ChangeKind::Equal,
{
    TextDiff::from_lines(old, new)
        .iter_all_changes()
        .map(|change| LineChange {
            kind: match change.tag() {
                ChangeTag::Delete => ChangeKind::Delete,
                ChangeTag::Insert => ChangeKind::Insert,
                ChangeTag::Equal => ChangeKind::Equal,
            },
            text: change.to_string(),
        })
        .collect()
}

/// Calls `similar`'s unified diff writer for a line diff of `old` to `new` with
/// the headers `from` and `to`. The result is named `unified_diff_text`; nothing
/// more is claimed of it.
#[verifier::external_body]
fn similar_unified_diff(old: &str, new: &str, from: &str, to: &str) -> (r: String)
    ensures
        r@ == unified_diff_text(old@, new@, from@, to@),
{
    TextDiff::from_lines(old, new).unified_diff().header(from, to).to_string()
}

/// The sign that marks a change of kind `k` in a terminal diff.
pub open spec fn sign_of(k: ChangeKind) -> char {
    match k {
        ChangeKind::Delete => '-',
        ChangeKind::Insert => '+',
        ChangeKind::Equal => ' ',
    }
}

/// Each change as its sign followed by its text, concatenated.
pub open spec fn render_changes(c: Seq<(ChangeKind, Seq<char>)>) -> Seq<char>
    decreases c.len(),
{
    if c.len() == 0 {
        Seq::empty()
    } else {
        render_changes(c.drop_last()) + seq![sign_of(c.last().0)] + c.last().1
    }
}

/// `a/{path}` and `b/{path}` headers for a unified patch.
pub open spec fn patch_header(prefix: char, path: Seq<char>) -> Seq<char> {
    seq![prefix, '/'] + path
}

/// The unified patch of `old` to `new` for the file `path`.
pub open spec fn unified_patch_spec(path: Seq<char>, old: Seq<char>, new: Seq<char>) -> Seq<char> {
    unified_diff_text(old, new, patch_header('a', path), patch_header('b', path))
}

/// The terminal rendering of the line diff of `old` to `new`.
pub open spec fn render_terminal_diff_spec(old: Seq<char>, new: Seq<char>) -> Seq<char> {
    render_changes(line_changes(old, new))
}

/// A unified patch with `a/{path}` and `b/{path}` headers.
pub fn unified_patch(path: &str, old: &str, new: &str) -> (r: String)
    ensures
        r@ == unified_patch_spec(path@, old@, new@),
{
    let mut from = String::new();
    from.push('a');
    from.push('/');
    from.push_str(path);
    let mut to = String::new();
    to.push('b');
    to.push('/');
    to.push_str(path);
    assert(from@ =~= patch_header('a', path@));
    assert(to@ =~= patch_header('b', path@));
    similar_unified_diff(old, new, from.as_str(), to.as_str())
}

/// Every line of the diff prefixed with `-`, `+` or a space.
pub fn render_terminal_diff(old: &str, new: &str) -> (r: String)
    ensures
        r@ == render_terminal_diff_spec(old@, new@),
        old@ == new@ ==> forall|i: int|
            0 <= i < line_changes(old@, new@).len() ==> line_changes(old@, new@)[i].0
                == ChangeKind::Equal,
{
    let changes = similar_line_changes(old, new);
    let mut rendered = String::new();
    let mut i: usize = 0;
    while i < changes.len()
        invariant
            i <= changes@.len(),
            rendered@ == render_changes(change_views(changes@).take(i as int)),
        decreases changes@.len() - i,
    {
        let sign = match changes[i].kind {
            ChangeKind::Delete => '-',
            ChangeKind::Insert => '+',
            ChangeKind::Equal => ' ',
        };
        rendered.push(sign);
        rendered.push_str(changes[i].text.as_str());
        proof {
            let t = change_views(changes@).take(i + 1);
            assert(t.drop_last() =~= change_views(changes@).take(i as int));
        }
        i += 1;
    }
    assert(change_views(changes@).take(changes@.len() as int) =~= change_views(changes@));
    rendered
}

} // verus!
