//! File suggestions for `@` completion: a bounded walk of the workspace that
//! skips hidden and build directories, keeps the entries whose relative path
//! contains the query, and lists directories first, then by path.
//!
//! The caller lists each directory the walk asks for and hands the entries
//! over; the walk decides what is kept and where to go next.

use vstd::prelude::*;
use crate::text::{chars_of, contains, contains_spec, copy_str, lemma_text_less_total,
    lemma_text_less_transitive, replace_all, replace_all_spec, same_text, starts_with, starts_with_spec, str_less,
    text_less};
use crate::tools::{join_path_spec, resolve_path};
use crate::tools::search::{lowercase, to_lowercase};

verus! {

/// The most suggestions a walk returns.
pub const MAX_FILE_SUGGESTIONS: usize = 80;

/// The most directories a walk takes from its stack.
pub const MAX_WALK_ENTRIES: usize = 4000;

/// One suggested file or directory, by its path relative to the workspace.
#[derive(Debug, Clone)]
pub struct FileSuggestion {
    pub path: String,
    pub name: String,
    pub is_dir: bool,
}

pub struct SuggestionView {
    pub path: Seq<char>,
    pub name: Seq<char>,
    pub is_dir: bool,
}

impl View for FileSuggestion {
    type V = SuggestionView;

    open spec fn view(&self) -> SuggestionView {
        SuggestionView { path: self.path@, name: self.name@, is_dir: self.is_dir }
    }
}

pub open spec fn suggestion_views(s: Seq<FileSuggestion>) -> Seq<SuggestionView> {
    s.map_values(|x: FileSuggestion| x@)
}

impl FileSuggestion {
    pub fn duplicate(&self) -> (r: FileSuggestion)
        ensures
            r@ == self@,
    {
        FileSuggestion { path: self.path.clone(), name: self.name.clone(), is_dir: self.is_dir }
    }
}

/// Names the walk never enters or lists: version control, dependencies,
/// build output, caches, and every hidden entry.
pub open spec fn skipped_name(name: Seq<char>) -> bool {
    name == ".git"@ || name == "node_modules"@ || name == "target"@ || name == "dist"@ || name == ".next"@
        || name == ".cache"@ || starts_with_spec(name, "."@)
}

pub fn should_skip_entry(file_name: &str) -> (b: bool)
    ensures
        b == skipped_name(file_name@),
{
    same_text(file_name, ".git") || same_text(file_name, "node_modules") || same_text(file_name, "target")
        || same_text(file_name, "dist") || same_text(file_name, ".next") || same_text(file_name, ".cache")
        || starts_with(file_name, ".")
}

/// The relative path of entry `name` of the directory at relative path `dir`
/// (`dir` is empty for the workspace itself).
pub open spec fn entry_rel(dir: Seq<char>, name: Seq<char>) -> Seq<char> {
    if dir.len() == 0 { name } else { dir + "/"@ + name }
}

/// The path shown for an entry: its relative path with `/` separators.
pub open spec fn shown_path(rel: Seq<char>) -> Seq<char> {
    replace_all_spec(rel, seq!['\\'], seq!['/'])
}

/// Whether an entry is suggested for the lowercase `query`.
pub open spec fn matches_query(shown: Seq<char>, query: Seq<char>) -> bool {
    query.len() == 0 || contains_spec(lowercase(shown), query)
}

/// The directory to list for the relative path `dir`.
pub fn walk_dir_path(cwd: &str, dir: &str) -> (r: String)
    ensures
        r@ == if dir@.len() == 0 { cwd@ } else { join_path_spec(cwd@, dir@) },
{
    if dir.unicode_len() == 0 {
        copy_str(cwd)
    } else {
        resolve_path(cwd, dir)
    }
}

/// The relative path reached through the directory names `parts`, from the
/// workspace root (empty) down.
pub open spec fn rel_of(parts: Seq<Seq<char>>) -> Seq<char>
    decreases parts.len(),
{
    if parts.len() == 0 {
        Seq::empty()
    } else {
        entry_rel(rel_of(parts.drop_last()), parts.last())
    }
}

/// None of `parts` is a name the walk skips.
pub open spec fn clean_parts(parts: Seq<Seq<char>>) -> bool {
    forall|i: int| 0 <= i < parts.len() ==> !skipped_name(#[trigger] parts[i])
}

/// A suggestion for an entry reached from the workspace root through names
/// that are never skipped: neither the entry nor any directory above it is
/// hidden, version control, dependencies, build output or a cache.
pub open spec fn reached_cleanly(v: SuggestionView) -> bool {
    exists|parts: Seq<Seq<char>>| #![trigger rel_of(parts)]
        clean_parts(parts) && parts.len() > 0 && v.name == parts.last() && v.path == shown_path(rel_of(parts))
}

/// A walk in progress.
pub struct WorkspaceWalk {
    stack: Vec<String>,
    visited: usize,
    suggestions: Vec<FileSuggestion>,
    query: String,
    stopped: bool,
    /// The directory being listed, as handed out by `next_dir`.
    current: Option<String>,
    /// The names leading to each directory of the stack.
    stack_parts: Ghost<Seq<Seq<Seq<char>>>>,
    /// The names leading to the current directory.
    current_parts: Ghost<Seq<Seq<char>>>,
}

pub open spec fn string_views(v: Seq<String>) -> Seq<Seq<char>> {
    v.map_values(|x: String| x@)
}

impl WorkspaceWalk {
    /// Relative paths of the directories still to list; the last is next.
    pub closed spec fn pending(&self) -> Seq<Seq<char>> {
        string_views(self.stack@)
    }

    /// The directory being listed: the last one `next_dir` handed out.
    pub closed spec fn current_dir(&self) -> Option<Seq<char>> {
        match self.current {
            Some(c) => Some(c@),
            None => None,
        }
    }

    /// How many directories were taken from the stack.
    pub closed spec fn visited_count(&self) -> nat {
        self.visited as nat
    }

    /// The suggestions so far, in the order found.
    pub closed spec fn found(&self) -> Seq<SuggestionView> {
        suggestion_views(self.suggestions@)
    }

    /// The lowercase query.
    pub closed spec fn query_view(&self) -> Seq<char> {
        self.query@
    }

    /// Whether the walk has ended.
    pub closed spec fn is_stopped(&self) -> bool {
        self.stopped
    }

    pub closed spec fn wf(&self) -> bool {
        &&& self.suggestions@.len() <= MAX_FILE_SUGGESTIONS
        &&& self.visited <= MAX_WALK_ENTRIES + 1
        &&& !self.stopped ==> self.visited <= MAX_WALK_ENTRIES
        &&& self.stack_parts@.len() == self.stack@.len()
        &&& forall|i: int| 0 <= i < self.stack@.len() ==> (#[trigger] self.stack@[i])@ == rel_of(self.stack_parts@[i])
            && clean_parts(self.stack_parts@[i])
        &&& self.current matches Some(c) ==> c@ == rel_of(self.current_parts@) && clean_parts(self.current_parts@)
        &&& forall|i: int| 0 <= i < self.suggestions@.len() ==> reached_cleanly(#[trigger] self.suggestions@[i]@)
    }

    /// Every suggestion of a walk was reached through names that are never
    /// skipped.
    pub proof fn found_are_reached_cleanly(&self)
        requires
            self.wf(),
        ensures
            forall|i: int| 0 <= i < self.found().len() ==> reached_cleanly(#[trigger] self.found()[i]),
    {
        assert forall|i: int| 0 <= i < self.found().len() implies reached_cleanly(#[trigger] self.found()[i]) by {
            assert(self.found()[i] == self.suggestions@[i]@);
        }
    }

    /// A walk from the workspace root for `query`, compared in lowercase;
    /// without a query every entry matches.
    pub fn new(query: Option<&str>) -> (w: WorkspaceWalk)
        ensures
            w.wf(),
            w.pending() == seq![Seq::<char>::empty()],
            w.current_dir() is None,
            w.visited_count() == 0,
            w.found() == Seq::<SuggestionView>::empty(),
            w.query_view() == match query { Some(q) => lowercase(q@), None => Seq::<char>::empty() },
            !w.is_stopped(),
    {
        let q = match query {
            Some(q) => to_lowercase(q),
            None => String::new(),
        };
        let mut stack: Vec<String> = Vec::new();
        stack.push(String::new());
        let stack_parts: Ghost<Seq<Seq<Seq<char>>>> = Ghost(Seq::empty().push(Seq::empty()));
        let current_parts: Ghost<Seq<Seq<char>>> = Ghost(Seq::empty());
        let w = WorkspaceWalk {
            stack,
            visited: 0,
            suggestions: Vec::new(),
            query: q,
            stopped: false,
            current: None,
            stack_parts,
            current_parts,
        };
        assert(w.pending() =~= seq![Seq::<char>::empty()]);
        assert(w.found() =~= Seq::<SuggestionView>::empty());
        assert(w.stack@[0]@ =~= rel_of(Seq::<Seq<char>>::empty()));
        w
    }

    /// The next directory to list, taken from the stack; `None` once the
    /// stack is empty, too many directories were taken, or the suggestions
    /// are full, after which the walk stays stopped.
    pub fn next_dir(&mut self) -> (r: Option<String>)
        requires
            old(self).wf(),
        ensures
            final(self).wf(),
            final(self).query_view() == old(self).query_view(),
            final(self).found() == old(self).found(),
            r is None ==> final(self).current_dir() is None,
            r matches Some(d) ==> final(self).current_dir() == Some(d@),
            old(self).is_stopped() ==> r is None && final(self).is_stopped()
                && final(self).pending() == old(self).pending(),
            !old(self).is_stopped() && old(self).pending().len() == 0 ==> r is None && final(self).is_stopped(),
            !old(self).is_stopped() && old(self).pending().len() > 0 ==> {
                let v = old(self).visited_count() + 1;
                if v > MAX_WALK_ENTRIES || old(self).found().len() >= MAX_FILE_SUGGESTIONS {
                    r is None && final(self).is_stopped()
                } else {
                    &&& r matches Some(d) && d@ == old(self).pending().last()
                    &&& final(self).pending() == old(self).pending().drop_last()
                    &&& final(self).visited_count() == v
                    &&& !final(self).is_stopped()
                }
            },
    {
        self.current = None;
        if self.stopped {
            return None;
        }
        let ghost before = string_views(self.stack@);
        let ghost parts = self.stack_parts@;
        match self.stack.pop() {
            None => {
                self.stopped = true;
                None
            },
            Some(dir) => {
                assert(string_views(self.stack@) =~= before.drop_last());
                proof {
                    assert(dir@ == rel_of(parts.last()) && clean_parts(parts.last())) by {
                        assert(before[before.len() - 1] == dir@);
                    }
                    self.current_parts@ = parts.last();
                    self.stack_parts@ = parts.drop_last();
                }
                self.visited = self.visited + 1;
                if self.visited > MAX_WALK_ENTRIES || self.suggestions.len() >= MAX_FILE_SUGGESTIONS {
                    self.stopped = true;
                    None
                } else {
                    self.current = Some(copy_str(dir.as_str()));
                    Some(dir)
                }
            },
        }
    }

    /// Takes one entry, named `name`, of the directory being listed. An entry
    /// whose name is skipped is ignored (and, being a directory, not walked).
    /// Returns true when the suggestions are full and the rest of that
    /// directory is left unread.
    pub fn add_entry(&mut self, name: &str, is_dir: bool) -> (stop: bool)
        requires
            old(self).wf(),
            old(self).current_dir() is Some,
            old(self).found().len() < MAX_FILE_SUGGESTIONS,
        ensures
            final(self).wf(),
            final(self).query_view() == old(self).query_view(),
            final(self).visited_count() == old(self).visited_count(),
            final(self).is_stopped() == old(self).is_stopped(),
            final(self).current_dir() == old(self).current_dir(),
            skipped_name(name@) ==> !stop && final(self).found() == old(self).found()
                && final(self).pending() == old(self).pending(),
            !skipped_name(name@) ==> ({
                let rel = entry_rel(old(self).current_dir()->0, name@);
                let shown = shown_path(rel);
                let m = matches_query(shown, old(self).query_view());
                &&& final(self).found() == if m {
                    old(self).found().push(SuggestionView { path: shown, name: name@, is_dir })
                } else {
                    old(self).found()
                }
                &&& stop == (m && final(self).found().len() >= MAX_FILE_SUGGESTIONS)
                &&& final(self).pending() == if is_dir && !stop { old(self).pending().push(rel) } else { old(self).pending() }
            }),
    {
        if should_skip_entry(name) {
            return false;
        }
        let dir: &str = match &self.current {
            Some(d) => d.as_str(),
            None => return false,
        };
        let ghost parts = self.current_parts@.push(name@);
        proof {
            assert(parts.drop_last() =~= self.current_parts@);
        }
        let mut rel = copy_str(dir);
        if dir.unicode_len() > 0 {
            rel.push_str("/");
        }
        rel.push_str(name);
        proof {
            reveal_strlit("\\");
            reveal_strlit("/");
            assert("/"@ =~= seq!['/']);
            assert(rel@ == rel_of(parts));
            assert forall|i: int| 0 <= i < parts.len() implies !skipped_name(#[trigger] parts[i]) by {
                if i < parts.len() - 1 {
                    assert(parts[i] == self.current_parts@[i]);
                }
            }
        }
        let rel_chars = chars_of(rel.as_str());
        let backslash = chars_of("\\");
        assert(backslash@ =~= seq!['\\']);
        let shown = replace_all(rel_chars.as_slice(), backslash.as_slice(), "/");
        let m = self.query.unicode_len() == 0 || contains(to_lowercase(shown.as_str()).as_str(), self.query.as_str());
        let mut stop = false;
        if m {
            let ghost before = suggestion_views(self.suggestions@);
            let s = FileSuggestion { path: shown, name: copy_str(name), is_dir };
            assert(reached_cleanly(s@)) by {
                assert(clean_parts(parts) && parts.len() > 0 && s@.name == parts.last()
                    && s@.path == shown_path(rel_of(parts)));
            }
            let ghost old_s = self.suggestions@;
            self.suggestions.push(s);
            assert(suggestion_views(self.suggestions@) =~= before.push(s@));
            assert forall|i: int| 0 <= i < self.suggestions@.len() implies reached_cleanly(#[trigger] self.suggestions@[i]@) by {
                if i < old_s.len() {
                    assert(self.suggestions@[i] == old_s[i]);
                }
            }
            if self.suggestions.len() >= MAX_FILE_SUGGESTIONS {
                stop = true;
            }
        }
        if is_dir && !stop {
            let ghost before = string_views(self.stack@);
            let ghost old_stack = self.stack@;
            let ghost old_parts = self.stack_parts@;
            self.stack.push(rel);
            proof {
                self.stack_parts@ = old_parts.push(parts);
            }
            assert(string_views(self.stack@) =~= before.push(rel@));
            assert forall|i: int| 0 <= i < self.stack@.len() implies (#[trigger] self.stack@[i])@ == rel_of(self.stack_parts@[i])
                && clean_parts(self.stack_parts@[i]) by {
                if i < old_stack.len() {
                    assert(self.stack@[i] == old_stack[i]);
                    assert(self.stack_parts@[i] == old_parts[i]);
                }
            }
        }
        stop
    }

    /// The suggestions, directories first, then by path; each was reached
    /// through names that are never skipped.
    pub fn finish(self) -> (r: Vec<FileSuggestion>)
        requires
            self.wf(),
        ensures
            sorted_for_listing(suggestion_views(r@)),
            suggestion_views(r@).to_multiset() == self.found().to_multiset(),
            forall|i: int| 0 <= i < r@.len() ==> reached_cleanly(#[trigger] suggestion_views(r@)[i]),
    {
        proof {
            self.found_are_reached_cleanly();
        }
        let r = sort_suggestions(&self.suggestions);
        proof {
            let rv = suggestion_views(r@);
            let fv = self.found();
            rv.to_multiset_ensures();
            fv.to_multiset_ensures();
            assert forall|i: int| 0 <= i < r@.len() implies reached_cleanly(#[trigger] suggestion_views(r@)[i]) by {
                assert(rv.contains(rv[i]));
                assert(rv.to_multiset().count(rv[i]) > 0);
                assert(fv.to_multiset().count(rv[i]) > 0);
                assert(fv.contains(rv[i]));
                let j = choose|j: int| 0 <= j < fv.len() && fv[j] == rv[i];
                assert(reached_cleanly(fv[j]));
            }
        }
        r
    }
}

/// `a` is listed before `b`: directories first, then by path.
pub open spec fn listed_before(a: SuggestionView, b: SuggestionView) -> bool {
    (a.is_dir && !b.is_dir) || (a.is_dir == b.is_dir && text_less(a.path, b.path))
}

pub open spec fn sorted_for_listing(v: Seq<SuggestionView>) -> bool {
    forall|i: int, j: int| 0 <= i < j < v.len() ==> !listed_before(#[trigger] v[j], #[trigger] v[i])
}

proof fn lemma_before_total(a: SuggestionView, b: SuggestionView)
    ensures
        listed_before(a, b) || listed_before(b, a) || (a.is_dir == b.is_dir && a.path == b.path),
        !(listed_before(a, b) && listed_before(b, a)),
{
    lemma_text_less_total(a.path, b.path);
}

proof fn lemma_before_transitive(a: SuggestionView, b: SuggestionView, c: SuggestionView)
    requires
        listed_before(a, b),
        listed_before(b, c),
    ensures
        listed_before(a, c),
{
    if a.is_dir == b.is_dir && b.is_dir == c.is_dir {
        lemma_text_less_transitive(a.path, b.path, c.path);
    }
}

fn comes_before(a: &FileSuggestion, b: &FileSuggestion) -> (r: bool)
    ensures
        r == listed_before(a@, b@),
{
    (a.is_dir && !b.is_dir) || (a.is_dir == b.is_dir && str_less(a.path.as_str(), b.path.as_str()))
}

/// Sorts suggestions for listing; equal keys keep their order.
pub fn sort_suggestions(v: &Vec<FileSuggestion>) -> (r: Vec<FileSuggestion>)
    ensures
        sorted_for_listing(suggestion_views(r@)),
        suggestion_views(r@).to_multiset() == suggestion_views(v@).to_multiset(),
{
    let ghost vv = suggestion_views(v@);
    let mut r: Vec<FileSuggestion> = Vec::new();
    let mut i: usize = 0;
    assert(vv.take(0) =~= Seq::<SuggestionView>::empty());
    assert(suggestion_views(r@) =~= Seq::<SuggestionView>::empty());
    while i < v.len()
        invariant
            i <= v@.len(),
            vv == suggestion_views(v@),
            sorted_for_listing(suggestion_views(r@)),
            suggestion_views(r@).to_multiset() == vv.take(i as int).to_multiset(),
        decreases v@.len() - i,
    {
        let x = &v[i];
        let ghost rv = suggestion_views(r@);
        let mut q: usize = 0;
        while q < r.len() && !comes_before(x, &r[q])
            invariant
                q <= r@.len(),
                rv == suggestion_views(r@),
                forall|p: int| 0 <= p < q ==> !listed_before(x@, #[trigger] rv[p]),
            decreases r@.len() - q,
        {
            q += 1;
        }
        let ghost nv = rv.insert(q as int, x@);
        proof {
            assert forall|p1: int, p2: int| 0 <= p1 < p2 < nv.len() implies !listed_before(#[trigger] nv[p2], #[trigger] nv[p1]) by {
                if p1 < q && p2 < q {
                    assert(nv[p1] == rv[p1] && nv[p2] == rv[p2]);
                } else if p1 < q && p2 == q {
                    lemma_before_total(x@, rv[p1]);
                } else if p1 < q {
                    assert(nv[p2] == rv[p2 - 1] && nv[p1] == rv[p1]);
                } else if p1 == q {
                    assert(nv[p2] == rv[p2 - 1]);
                    assert(listed_before(x@, rv[q as int]));
                    if listed_before(rv[p2 - 1], x@) {
                        if p2 - 1 > q {
                            lemma_before_transitive(rv[p2 - 1], x@, rv[q as int]);
                        } else {
                            lemma_before_total(x@, rv[q as int]);
                        }
                    }
                } else {
                    assert(nv[p1] == rv[p1 - 1] && nv[p2] == rv[p2 - 1]);
                }
            }
            assert(vv.take(i + 1) =~= vv.take(i as int).push(x@));
            vstd::seq_lib::to_multiset_insert(rv, q as int, x@);
            vstd::seq_lib::to_multiset_build(vv.take(i as int), x@);
        }
        r.insert(q, x.duplicate());
        assert(suggestion_views(r@) =~= nv);
        i += 1;
    }
    assert(vv.take(v@.len() as int) =~= vv);
    r
}

} // verus!
