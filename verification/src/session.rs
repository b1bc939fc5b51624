//! Sessions: one JSONL file per conversation, a header line followed by one
//! line per message, kept under `~/.sabi/sessions/<workspace>/<id>.jsonl`.
//!
//! Files are read and written by the caller; here a file is the sequence of
//! its parsed lines, and this module decides what a file holds, which
//! sessions belong to a directory and which one is the latest.

use vstd::prelude::*;
use crate::config::opt_view;
use crate::messages::{Message, MessageView, message_views};
use crate::text::{copy_str, decimal, decimal_spec, same_text};
use crate::tools::{join_path_spec, resolve_path};

verus! {

/// The first line of a session file. Times are Unix nanoseconds (UTC).
#[derive(Debug)]
pub struct SessionHeader {
    pub kind: String,
    pub version: u32,
    pub id: String,
    pub cwd: String,
    pub created_at: i128,
}

pub struct HeaderView {
    pub kind: Seq<char>,
    pub version: u32,
    pub id: Seq<char>,
    pub cwd: Seq<char>,
    pub created_at: i128,
}

impl View for SessionHeader {
    type V = HeaderView;

    open spec fn view(&self) -> HeaderView {
        HeaderView { kind: self.kind@, version: self.version, id: self.id@, cwd: self.cwd@, created_at: self.created_at }
    }
}

impl SessionHeader {
    pub fn duplicate(&self) -> (r: SessionHeader)
        ensures
            r@ == self@,
    {
        SessionHeader {
            kind: self.kind.clone(),
            version: self.version,
            id: self.id.clone(),
            cwd: self.cwd.clone(),
            created_at: self.created_at,
        }
    }
}

/// What is known of a stored session.
#[derive(Debug)]
pub struct SessionSummary {
    pub id: String,
    pub path: String,
    pub header: SessionHeader,
    pub message_count: usize,
    pub modified_at: i128,
}

pub struct SummaryView {
    pub id: Seq<char>,
    pub path: Seq<char>,
    pub header: HeaderView,
    pub message_count: usize,
    pub modified_at: i128,
}

impl View for SessionSummary {
    type V = SummaryView;

    open spec fn view(&self) -> SummaryView {
        SummaryView {
            id: self.id@,
            path: self.path@,
            header: self.header@,
            message_count: self.message_count,
            modified_at: self.modified_at,
        }
    }
}

impl SessionSummary {
    pub fn duplicate(&self) -> (r: SessionSummary)
        ensures
            r@ == self@,
    {
        SessionSummary {
            id: self.id.clone(),
            path: self.path.clone(),
            header: self.header.duplicate(),
            message_count: self.message_count,
            modified_at: self.modified_at,
        }
    }
}

pub open spec fn summary_views(s: Seq<SessionSummary>) -> Seq<SummaryView> {
    s.map_values(|x: SessionSummary| x@)
}

/// A session file: its id and where it is.
#[derive(Debug, Clone)]
pub struct SessionStore {
    pub id: String,
    pub path: String,
}

/// One line of a session file as parsed.
#[derive(Debug)]
pub enum StoredEntry {
    Header(SessionHeader),
    Message(Message),
    /// A line that is not a valid entry, with the parser's error.
    Invalid(String),
}

pub enum EntryView {
    Header(HeaderView),
    Message(MessageView),
    Invalid(Seq<char>),
}

impl View for StoredEntry {
    type V = EntryView;

    open spec fn view(&self) -> EntryView {
        match self {
            StoredEntry::Header(h) => EntryView::Header(h@),
            StoredEntry::Message(m) => EntryView::Message(m@),
            StoredEntry::Invalid(e) => EntryView::Invalid(e@),
        }
    }
}

pub open spec fn entry_views(e: Seq<StoredEntry>) -> Seq<EntryView> {
    e.map_values(|x: StoredEntry| x@)
}

// ---------------------------------------------------------------------------
// Paths and ids.

/// `Uuid::parse_str(s)` succeeds.
pub uninterp spec fn uuid_parses(s: Seq<char>) -> bool;

/// Calls `uuid::Uuid::parse_str`; tells whether `id` parses as a UUID in
/// any of the forms the `uuid` crate reads.
#[verifier::external_body]
pub fn is_session_id(id: &str) -> (b: bool)
    ensures
        b == uuid_parses(id@),
{
    uuid::Uuid::parse_str(id).is_ok()
}

/// Calls `uuid::Uuid::now_v7` and formats it (hyphenated). The id depends on
/// the clock and on chance; the `uuid` crate documents that `parse_str`
/// reads every form it generates, so the id parses.
#[verifier::external_body]
pub fn new_session_id() -> (r: String)
    ensures
        uuid_parses(r@),
{
    uuid::Uuid::now_v7().to_string()
}

/// `Path::file_name` of `p` (as text).
pub uninterp spec fn path_file_name(p: Seq<char>) -> Option<Seq<char>>;

/// `Path::file_stem` of `p` (as text).
pub uninterp spec fn path_file_stem(p: Seq<char>) -> Option<Seq<char>>;

/// `Path::extension` of `p` (as text).
pub uninterp spec fn path_extension(p: Seq<char>) -> Option<Seq<char>>;

/// `Path::new(a) == Path::new(b)`: the same components.
pub uninterp spec fn same_path_spec(a: Seq<char>, b: Seq<char>) -> bool;

/// Calls `std::path::Path::file_name`; a path made from a `&str` is UTF-8,
/// so `to_str` keeps every name.
#[verifier::external_body]
fn file_name_of(p: &str) -> (r: Option<String>)
    ensures
        opt_view(r) == path_file_name(p@),
{
    std::path::Path::new(p).file_name().and_then(|n| n.to_str()).map(|n| n.to_string())
}

/// Calls `std::path::Path::file_stem`.
#[verifier::external_body]
fn file_stem_of(p: &str) -> (r: Option<String>)
    ensures
        opt_view(r) == path_file_stem(p@),
{
    std::path::Path::new(p).file_stem().and_then(|n| n.to_str()).map(|n| n.to_string())
}

/// Calls `std::path::Path::extension`.
#[verifier::external_body]
fn extension_of(p: &str) -> (r: Option<String>)
    ensures
        opt_view(r) == path_extension(p@),
{
    std::path::Path::new(p).extension().and_then(|n| n.to_str()).map(|n| n.to_string())
}

/// Compares two paths with `Path`'s `==`, which compares components; equal
/// text gives equal paths.
#[verifier::external_body]
fn same_path(a: &str, b: &str) -> (r: bool)
    ensures
        r == same_path_spec(a@, b@),
        a@ == b@ ==> r,
{
    std::path::Path::new(a) == std::path::Path::new(b)
}

pub open spec fn session_dir_spec(sessions: Option<Seq<char>>, cwd: Seq<char>) -> Result<Seq<char>, Seq<char>> {
    match sessions {
        None => Err("failed to resolve session directory"@),
        Some(base) => Ok(join_path_spec(base, match path_file_name(cwd) {
            Some(n) => n,
            None => "workspace"@,
        })),
    }
}

/// The directory of the sessions of `cwd`: named after its last component
/// (`workspace` when it has none) under the sessions directory.
pub fn session_dir(sessions: Option<&str>, cwd: &str) -> (r: Result<String, String>)
    ensures
        match r {
            Ok(d) => session_dir_spec(match sessions { Some(s) => Some(s@), None => None }, cwd@) == Ok::<Seq<char>, Seq<char>>(d@),
            Err(e) => session_dir_spec(match sessions { Some(s) => Some(s@), None => None }, cwd@) == Err::<Seq<char>, Seq<char>>(e@),
        },
{
    let base = match sessions {
        Some(b) => b,
        None => return Err(copy_str("failed to resolve session directory")),
    };
    let name = match file_name_of(cwd) {
        Some(n) => n,
        None => copy_str("workspace"),
    };
    Ok(resolve_path(base, name.as_str()))
}

/// The file of session `id` in `dir`.
pub fn session_path(dir: &str, id: &str) -> (r: String)
    ensures
        r@ == join_path_spec(dir@, id@ + ".jsonl"@),
{
    let mut name = copy_str(id);
    name.push_str(".jsonl");
    resolve_path(dir, name.as_str())
}

/// Only `.jsonl` files hold sessions.
pub fn is_session_file(path: &str) -> (b: bool)
    ensures
        b == (path_extension(path@) == Some("jsonl"@)),
{
    match extension_of(path) {
        Some(e) => same_text(e.as_str(), "jsonl"),
        None => false,
    }
}

pub open spec fn session_id_of_spec(path: Seq<char>) -> Seq<char> {
    match path_file_stem(path) {
        Some(s) => s,
        None => "unknown-session"@,
    }
}

/// The id of the session stored at `path`: its file stem.
pub fn session_id_of(path: &str) -> (r: String)
    ensures
        r@ == session_id_of_spec(path@),
{
    match file_stem_of(path) {
        Some(s) => s,
        None => copy_str("unknown-session"),
    }
}

/// The header of a new session.
pub fn new_header(id: String, cwd: &str, created_at: i128) -> (h: SessionHeader)
    ensures
        h@ == (HeaderView { kind: "sabi-agent-session"@, version: 1, id: id@, cwd: cwd@, created_at }),
{
    SessionHeader { kind: copy_str("sabi-agent-session"), version: 1, id, cwd: copy_str(cwd), created_at }
}

// ---------------------------------------------------------------------------
// Reading a session file.

/// Whether the file's first header names `cwd`; the first unreadable line
/// before it is an error.
pub open spec fn matches_cwd_spec(e: Seq<EntryView>, cwd: Seq<char>) -> Result<bool, Seq<char>>
    decreases e.len(),
{
    if e.len() == 0 {
        Ok(false)
    } else {
        match e[0] {
            EntryView::Invalid(m) => Err(m),
            EntryView::Header(h) => Ok(h.cwd == cwd),
            EntryView::Message(_) => matches_cwd_spec(e.drop_first(), cwd),
        }
    }
}

/// Whether a message comes before any unreadable line.
pub open spec fn has_messages_spec(e: Seq<EntryView>) -> Result<bool, Seq<char>>
    decreases e.len(),
{
    if e.len() == 0 {
        Ok(false)
    } else {
        match e[0] {
            EntryView::Invalid(m) => Err(m),
            EntryView::Message(_) => Ok(true),
            EntryView::Header(_) => has_messages_spec(e.drop_first()),
        }
    }
}

/// The position and error of the first unreadable line.
pub open spec fn first_invalid(e: Seq<EntryView>) -> Option<(nat, Seq<char>)>
    decreases e.len(),
{
    if e.len() == 0 {
        None
    } else {
        match e[0] {
            EntryView::Invalid(m) => Some((0nat, m)),
            _ => match first_invalid(e.drop_first()) {
                Some((k, m)) => Some((k + 1, m)),
                None => None,
            },
        }
    }
}

/// The last header of the file.
pub open spec fn last_header(e: Seq<EntryView>) -> Option<HeaderView>
    decreases e.len(),
{
    if e.len() == 0 {
        None
    } else {
        match e.last() {
            EntryView::Header(h) => Some(h),
            _ => last_header(e.drop_last()),
        }
    }
}

/// The messages of the file, in order.
pub open spec fn stored_messages(e: Seq<EntryView>) -> Seq<MessageView>
    decreases e.len(),
{
    if e.len() == 0 {
        Seq::empty()
    } else {
        stored_messages(e.drop_last()) + match e.last() {
            EntryView::Message(m) => seq![m],
            _ => Seq::<MessageView>::empty(),
        }
    }
}

/// Scans forward for the first header; true when it names `cwd`.
pub fn matches_cwd(entries: &[StoredEntry], cwd: &str) -> (r: Result<bool, String>)
    ensures
        match r {
            Ok(b) => matches_cwd_spec(entry_views(entries@), cwd@) == Ok::<bool, Seq<char>>(b),
            Err(m) => matches_cwd_spec(entry_views(entries@), cwd@) == Err::<bool, Seq<char>>(m@),
        },
{
    let ghost ev = entry_views(entries@);
    let mut i: usize = 0;
    assert(ev.skip(0) =~= ev);
    while i < entries.len()
        invariant
            i <= entries@.len(),
            ev == entry_views(entries@),
            matches_cwd_spec(ev, cwd@) == matches_cwd_spec(ev.skip(i as int), cwd@),
        decreases entries@.len() - i,
    {
        assert(ev.skip(i as int).drop_first() =~= ev.skip(i + 1));
        assert(ev.skip(i as int)[0] == entries@[i as int]@);
        match &entries[i] {
            StoredEntry::Invalid(m) => return Err(m.clone()),
            StoredEntry::Header(h) => return Ok(same_text(h.cwd.as_str(), cwd)),
            StoredEntry::Message(_) => {},
        }
        i += 1;
    }
    assert(ev.skip(i as int).len() == 0);
    Ok(false)
}

/// Scans forward for a message entry.
pub fn has_message_entries(entries: &[StoredEntry]) -> (r: Result<bool, String>)
    ensures
        match r {
            Ok(b) => has_messages_spec(entry_views(entries@)) == Ok::<bool, Seq<char>>(b),
            Err(m) => has_messages_spec(entry_views(entries@)) == Err::<bool, Seq<char>>(m@),
        },
{
    let ghost ev = entry_views(entries@);
    let mut i: usize = 0;
    assert(ev.skip(0) =~= ev);
    while i < entries.len()
        invariant
            i <= entries@.len(),
            ev == entry_views(entries@),
            has_messages_spec(ev) == has_messages_spec(ev.skip(i as int)),
        decreases entries@.len() - i,
    {
        assert(ev.skip(i as int).drop_first() =~= ev.skip(i + 1));
        assert(ev.skip(i as int)[0] == entries@[i as int]@);
        match &entries[i] {
            StoredEntry::Invalid(m) => return Err(m.clone()),
            StoredEntry::Message(_) => return Ok(true),
            StoredEntry::Header(_) => {},
        }
        i += 1;
    }
    assert(ev.skip(i as int).len() == 0);
    Ok(false)
}

proof fn lemma_first_invalid_skip(e: Seq<EntryView>, i: int)
    requires
        0 <= i <= e.len(),
        forall|k: int| 0 <= k < i ==> !(e[k] is Invalid),
    ensures
        first_invalid(e) == match first_invalid(e.skip(i)) {
            Some((k, m)) => Some(((k + i) as nat, m)),
            None => None::<(nat, Seq<char>)>,
        },
    decreases i,
{
    if i > 0 {
        assert(e.drop_first().skip(i - 1) =~= e.skip(i));
        lemma_first_invalid_skip(e.drop_first(), i - 1);
    } else {
        assert(e.skip(0) =~= e);
    }
}

/// The file's last header and its number of messages; `Ok(None)` without a
/// header; the first unreadable line is an error.
pub open spec fn summarize_spec(e: Seq<EntryView>) -> Result<Option<(HeaderView, nat)>, Seq<char>> {
    match first_invalid(e) {
        Some((_, m)) => Err(m),
        None => match last_header(e) {
            None => Ok(None),
            Some(h) => Ok(Some((h, stored_messages(e).len()))),
        },
    }
}

fn scan_entries(entries: &[StoredEntry]) -> (r: Result<(Option<SessionHeader>, usize), String>)
    ensures
        match r {
            Ok((h, n)) => first_invalid(entry_views(entries@)) is None
                && match h { Some(x) => last_header(entry_views(entries@)) == Some(x@), None => last_header(entry_views(entries@)) is None }
                && n == stored_messages(entry_views(entries@)).len(),
            Err(m) => first_invalid(entry_views(entries@)) matches Some((_, x)) && x == m@,
        },
{
    let ghost ev = entry_views(entries@);
    let mut header: Option<SessionHeader> = None;
    let mut count: usize = 0;
    let mut i: usize = 0;
    while i < entries.len()
        invariant
            i <= entries@.len(),
            ev == entry_views(entries@),
            forall|k: int| 0 <= k < i ==> !(#[trigger] ev[k] is Invalid),
            match header { Some(x) => last_header(ev.take(i as int)) == Some(x@), None => last_header(ev.take(i as int)) is None },
            count == stored_messages(ev.take(i as int)).len(),
            count <= i,
        decreases entries@.len() - i,
    {
        assert(ev.take(i + 1).drop_last() =~= ev.take(i as int));
        assert(ev.take(i + 1).last() == entries@[i as int]@);
        match &entries[i] {
            StoredEntry::Invalid(m) => {
                proof {
                    lemma_first_invalid_skip(ev, i as int);
                    assert(ev.skip(i as int)[0] == ev[i as int]);
                }
                return Err(m.clone());
            },
            StoredEntry::Header(h) => {
                header = Some(h.duplicate());
            },
            StoredEntry::Message(_) => {
                count = count + 1;
            },
        }
        i += 1;
    }
    proof {
        lemma_first_invalid_skip(ev, i as int);
        assert(ev.take(i as int) =~= ev);
    }
    Ok((header, count))
}

/// Summarizes the session stored at `path`, last modified at `modified_at`.
pub fn summarize_session(path: &str, entries: &[StoredEntry], modified_at: i128) -> (r: Result<Option<SessionSummary>, String>)
    ensures
        match r {
            Ok(Some(s)) => summarize_spec(entry_views(entries@)) == Ok::<Option<(HeaderView, nat)>, Seq<char>>(Some((s.header@, s.message_count as nat)))
                && s.id@ == session_id_of_spec(path@) && s.path@ == path@ && s.modified_at == modified_at,
            Ok(None) => summarize_spec(entry_views(entries@)) == Ok::<Option<(HeaderView, nat)>, Seq<char>>(None),
            Err(m) => summarize_spec(entry_views(entries@)) == Err::<Option<(HeaderView, nat)>, Seq<char>>(m@),
        },
{
    match scan_entries(entries) {
        Err(m) => Err(m),
        Ok((None, _)) => Ok(None),
        Ok((Some(header), message_count)) => Ok(Some(SessionSummary {
            id: session_id_of(path),
            path: copy_str(path),
            header,
            message_count,
            modified_at,
        })),
    }
}

pub open spec fn invalid_line_text(line: nat, error: Seq<char>) -> Seq<char> {
    "invalid JSONL entry on line "@ + decimal_spec(line) + ": "@ + error
}

/// The messages stored in a file, in order; the first unreadable line (counted
/// from 1) is an error.
pub open spec fn load_messages_spec(e: Seq<EntryView>) -> Result<Seq<MessageView>, Seq<char>> {
    match first_invalid(e) {
        Some((k, m)) => Err(invalid_line_text(k + 1, m)),
        None => Ok(stored_messages(e)),
    }
}

/// The messages of a session file.
pub fn load_messages(entries: &[StoredEntry]) -> (r: Result<Vec<Message>, String>)
    ensures
        match r {
            Ok(v) => load_messages_spec(entry_views(entries@)) == Ok::<Seq<MessageView>, Seq<char>>(message_views(v@)),
            Err(m) => load_messages_spec(entry_views(entries@)) == Err::<Seq<MessageView>, Seq<char>>(m@),
        },
{
    let ghost ev = entry_views(entries@);
    let mut out: Vec<Message> = Vec::new();
    let mut i: usize = 0;
    while i < entries.len()
        invariant
            i <= entries@.len(),
            ev == entry_views(entries@),
            forall|k: int| 0 <= k < i ==> !(#[trigger] ev[k] is Invalid),
            message_views(out@) == stored_messages(ev.take(i as int)),
        decreases entries@.len() - i,
    {
        assert(ev.take(i + 1).drop_last() =~= ev.take(i as int));
        assert(ev.take(i + 1).last() == entries@[i as int]@);
        match &entries[i] {
            StoredEntry::Invalid(m) => {
                proof {
                    lemma_first_invalid_skip(ev, i as int);
                    assert(ev.skip(i as int)[0] == ev[i as int]);
                }
                let mut msg = copy_str("invalid JSONL entry on line ");
                msg.push_str(decimal((i as u64) + 1).as_str());
                msg.push_str(": ");
                msg.push_str(m.as_str());
                return Err(msg);
            },
            StoredEntry::Header(_) => {},
            StoredEntry::Message(m) => {
                let ghost before = out@;
                out.push(m.duplicate());
                assert(message_views(out@) =~= message_views(before).push(m@));
            },
        }
        i += 1;
    }
    proof {
        lemma_first_invalid_skip(ev, i as int);
        assert(ev.take(i as int) =~= ev);
    }
    Ok(out)
}

// ---------------------------------------------------------------------------
// Choosing sessions.

/// A session listed for `cwd`: summarized, of that directory, not empty.
pub open spec fn listed(s: SummaryView, cwd: Seq<char>) -> bool {
    s.header.cwd == cwd && s.message_count > 0
}

pub open spec fn newest_first(s: Seq<SummaryView>) -> bool {
    forall|i: int, j: int| 0 <= i < j < s.len() ==> (#[trigger] s[i]).modified_at >= (#[trigger] s[j]).modified_at
}

/// The summaries among `found` that are listed for `cwd`, in order.
pub open spec fn listed_among(found: Seq<Result<Option<SummaryView>, Seq<char>>>, cwd: Seq<char>) -> Seq<SummaryView>
    decreases found.len(),
{
    if found.len() == 0 {
        Seq::empty()
    } else {
        listed_among(found.drop_last(), cwd) + match found.last() {
            Ok(Some(s)) => if listed(s, cwd) { seq![s] } else { Seq::<SummaryView>::empty() },
            _ => Seq::<SummaryView>::empty(),
        }
    }
}

pub open spec fn found_views(f: Seq<Result<Option<SessionSummary>, String>>) -> Seq<Result<Option<SummaryView>, Seq<char>>> {
    f.map_values(|x: Result<Option<SessionSummary>, String>| match x {
        Ok(Some(s)) => Ok(Some(s@)),
        Ok(None) => Ok(None),
        Err(e) => Err(e@),
    })
}

/// The sessions of `cwd` that hold messages, newest modified first, out of
/// the summaries of the session files found (a file that could not be read
/// or summarized counts for nothing).
pub fn select_sessions(found: &Vec<Result<Option<SessionSummary>, String>>, cwd: &str) -> (r: Vec<SessionSummary>)
    ensures
        newest_first(summary_views(r@)),
        summary_views(r@).to_multiset() == listed_among(found_views(found@), cwd@).to_multiset(),
{
    let ghost fv = found_views(found@);
    let mut r: Vec<SessionSummary> = Vec::new();
    let mut i: usize = 0;
    assert(summary_views(r@) =~= Seq::<SummaryView>::empty());
    while i < found.len()
        invariant
            i <= found@.len(),
            fv == found_views(found@),
            newest_first(summary_views(r@)),
            summary_views(r@).to_multiset() == listed_among(fv.take(i as int), cwd@).to_multiset(),
        decreases found@.len() - i,
    {
        assert(fv.take(i + 1).drop_last() =~= fv.take(i as int));
        let ghost prev = listed_among(fv.take(i as int), cwd@);
        match &found[i] {
            Ok(Some(s)) => {
                assert(fv.take(i + 1).last() == Ok::<Option<SummaryView>, Seq<char>>(Some(s@)));
                if same_text(s.header.cwd.as_str(), cwd) && s.message_count > 0 {
                    let ghost rv = summary_views(r@);
                    let mut q: usize = 0;
                    while q < r.len() && !(r[q].modified_at < s.modified_at)
                        invariant
                            q <= r@.len(),
                            rv == summary_views(r@),
                            forall|p: int| 0 <= p < q ==> (#[trigger] rv[p]).modified_at >= s.modified_at,
                        decreases r@.len() - q,
                    {
                        q += 1;
                    }
                    let ghost nv = rv.insert(q as int, s@);
                    proof {
                        assert forall|p1: int, p2: int| 0 <= p1 < p2 < nv.len() implies
                            (#[trigger] nv[p1]).modified_at >= (#[trigger] nv[p2]).modified_at by {
                            if p2 < q {
                                assert(nv[p1] == rv[p1] && nv[p2] == rv[p2]);
                            } else if p2 == q {
                                assert(nv[p1] == rv[p1]);
                            } else if p1 < q {
                                assert(nv[p2] == rv[p2 - 1] && nv[p1] == rv[p1]);
                                assert(rv[p2 - 1].modified_at <= rv[q as int].modified_at);
                            } else if p1 == q {
                                assert(nv[p2] == rv[p2 - 1]);
                                assert(rv[p2 - 1].modified_at <= rv[q as int].modified_at);
                            } else {
                                assert(nv[p1] == rv[p1 - 1] && nv[p2] == rv[p2 - 1]);
                            }
                        }
                        vstd::seq_lib::to_multiset_insert(rv, q as int, s@);
                        vstd::seq_lib::to_multiset_build(prev, s@);
                    }
                    r.insert(q, s.duplicate());
                    assert(summary_views(r@) =~= nv);
                    assert(listed_among(fv.take(i + 1), cwd@) =~= prev.push(s@));
                } else {
                    assert(listed_among(fv.take(i + 1), cwd@) =~= prev);
                }
            },
            _ => {
                assert(listed_among(fv.take(i + 1), cwd@) =~= prev);
            },
        }
        i += 1;
    }
    assert(fv.take(i as int) =~= fv);
    r
}

/// Whether a session file counts when looking for the latest session of
/// `cwd`: a `.jsonl` file other than `excluded`, whose entries could be read,
/// whose header names `cwd` and which holds a message.
pub open spec fn latest_candidate_spec(path: Seq<char>, excluded: Option<Seq<char>>, entries: Option<Seq<EntryView>>, cwd: Seq<char>) -> bool {
    &&& path_extension(path) == Some("jsonl"@)
    &&& match excluded { Some(x) => !same_path_spec(path, x), None => true }
    &&& entries matches Some(e) && matches_cwd_spec(e, cwd) == Ok::<bool, Seq<char>>(true)
        && has_messages_spec(e) == Ok::<bool, Seq<char>>(true)
}

pub fn is_latest_candidate(path: &str, excluded: Option<&str>, entries: &Option<Vec<StoredEntry>>, cwd: &str) -> (b: bool)
    ensures
        b == latest_candidate_spec(path@, match excluded { Some(x) => Some(x@), None => None },
            match entries { Some(e) => Some(entry_views(e@)), None => None }, cwd@),
{
    if !is_session_file(path) {
        return false;
    }
    match excluded {
        Some(x) => if same_path(path, x) {
            return false;
        },
        None => {},
    }
    match entries {
        None => false,
        Some(e) => {
            let m = matches_cwd(e.as_slice(), cwd);
            let h = has_message_entries(e.as_slice());
            match (m, h) {
                (Ok(true), Ok(true)) => true,
                _ => false,
            }
        },
    }
}

/// The index of the latest candidate: the greatest modification time, the
/// first of equals.
pub open spec fn is_latest_index(c: Seq<(String, i128)>, k: int) -> bool {
    &&& 0 <= k < c.len()
    &&& forall|j: int| 0 <= j < c.len() ==> (#[trigger] c[j]).1 <= c[k].1
    &&& forall|j: int| 0 <= j < k ==> (#[trigger] c[j]).1 < c[k].1
}

/// The latest of the candidate sessions (path and modification time, in the
/// order the directory listed them); `None` when there are none.
pub fn pick_latest(candidates: &Vec<(String, i128)>) -> (r: Option<SessionStore>)
    ensures
        candidates@.len() == 0 <==> r is None,
        r matches Some(s) ==> exists|k: int| is_latest_index(candidates@, k)
            && s.path@ == candidates@[k].0@ && s.id@ == session_id_of_spec(candidates@[k].0@),
{
    if candidates.len() == 0 {
        return None;
    }
    let mut best: usize = 0;
    let mut i: usize = 1;
    while i < candidates.len()
        invariant
            1 <= i <= candidates@.len(),
            best < i,
            forall|j: int| 0 <= j < i ==> (#[trigger] candidates@[j]).1 <= candidates@[best as int].1,
            forall|j: int| 0 <= j < best ==> (#[trigger] candidates@[j]).1 < candidates@[best as int].1,
        decreases candidates@.len() - i,
    {
        if candidates[i].1 > candidates[best].1 {
            best = i;
        }
        i += 1;
    }
    let path = candidates[best].0.clone();
    let id = session_id_of(path.as_str());
    assert(is_latest_index(candidates@, best as int));
    Some(SessionStore { id, path })
}

/// Whether an existing session file may be opened as session `id` of `cwd`:
/// the id parses as a UUID, the file exists and its header names `cwd`.
pub open spec fn opens_spec(id: Seq<char>, exists: bool, entries: Option<Seq<EntryView>>, cwd: Seq<char>) -> bool {
    &&& uuid_parses(id)
    &&& exists
    &&& entries matches Some(e) && matches_cwd_spec(e, cwd) == Ok::<bool, Seq<char>>(true)
}

impl SessionStore {
    /// The store of session `id` at `path` when it may be opened for `cwd`.
    pub fn open_checked(id: &str, path: String, exists: bool, entries: &Option<Vec<StoredEntry>>, cwd: &str) -> (r: Option<SessionStore>)
        ensures
            r is Some == opens_spec(id@, exists, match entries { Some(e) => Some(entry_views(e@)), None => None }, cwd@),
            r matches Some(s) ==> s.id@ == id@ && s.path@ == path@,
    {
        if !is_session_id(id) || !exists {
            return None;
        }
        match entries {
            None => None,
            Some(e) => match matches_cwd(e.as_slice(), cwd) {
                Ok(true) => Some(SessionStore { id: copy_str(id), path }),
                _ => None,
            },
        }
    }
}

/// The entries that store `m`, one message per line.
pub open spec fn message_entries(m: Seq<MessageView>) -> Seq<EntryView> {
    m.map_values(|x: MessageView| EntryView::Message(x))
}

/// Appending messages to a file keeps what was stored before them: loading
/// gives the earlier messages followed by the new ones.
pub proof fn appended_messages_load_in_order(e: Seq<EntryView>, added: Seq<MessageView>)
    requires
        first_invalid(e) is None,
    ensures
        load_messages_spec(e + message_entries(added))
            == Ok::<Seq<MessageView>, Seq<char>>(stored_messages(e) + added),
    decreases added.len(),
{
    if added.len() == 0 {
        assert(e + message_entries(added) =~= e);
        assert(stored_messages(e) + added =~= stored_messages(e));
    } else {
        let init = added.drop_last();
        appended_messages_load_in_order(e, init);
        let all = e + message_entries(added);
        assert(all.drop_last() =~= e + message_entries(init));
        assert(all.last() == EntryView::Message(added.last()));
        lemma_no_invalid_append(e + message_entries(init), EntryView::Message(added.last()));
        assert(all =~= (e + message_entries(init)).push(EntryView::Message(added.last())));
        assert(first_invalid(all) is None);
        assert(stored_messages(all) == stored_messages(all.drop_last()) + seq![added.last()]);
        assert(stored_messages(e + message_entries(init)) == stored_messages(e) + init);
        assert(stored_messages(e) + added =~= (stored_messages(e) + init) + seq![added.last()]);
        assert(stored_messages(all) == stored_messages(e) + added);
        assert(load_messages_spec(all) == Ok::<Seq<MessageView>, Seq<char>>(stored_messages(e) + added));
    }
}

/// A session written by this library, its header for `cwd` with a fresh id
/// followed by its messages, is opened again for `cwd` by that id, and loading
/// it gives back exactly the messages written, in order.
pub proof fn written_session_reads_back(h: HeaderView, written: Seq<MessageView>, cwd: Seq<char>)
    requires
        h.cwd == cwd,
        uuid_parses(h.id),
    ensures
        opens_spec(h.id, true, Some(seq![EntryView::Header(h)] + message_entries(written)), cwd),
        load_messages_spec(seq![EntryView::Header(h)] + message_entries(written))
            == Ok::<Seq<MessageView>, Seq<char>>(written),
{
    let head = seq![EntryView::Header(h)];
    let all = head + message_entries(written);
    assert(all[0] == EntryView::Header(h));
    assert(head.drop_first() =~= Seq::<EntryView>::empty());
    assert(first_invalid(Seq::<EntryView>::empty()) is None);
    assert(first_invalid(head) is None);
    assert(head.drop_last() =~= Seq::<EntryView>::empty());
    assert(head.last() == EntryView::Header(h));
    assert(stored_messages(Seq::<EntryView>::empty()) =~= Seq::<MessageView>::empty());
    assert(stored_messages(head) =~= Seq::<MessageView>::empty());
    appended_messages_load_in_order(head, written);
    assert(Seq::<MessageView>::empty() + written =~= written);
}

proof fn lemma_no_invalid_append(e: Seq<EntryView>, x: EntryView)
    requires
        first_invalid(e) is None,
        !(x is Invalid),
    ensures
        first_invalid(e.push(x)) is None,
    decreases e.len(),
{
    if e.len() == 0 {
        assert(e.push(x)[0] == x);
        assert(e.push(x).drop_first() =~= Seq::<EntryView>::empty());
        assert(first_invalid(Seq::<EntryView>::empty()) is None);
    } else {
        assert(e.push(x)[0] == e[0]);
        assert(e.push(x).drop_first() =~= e.drop_first().push(x));
        lemma_no_invalid_append(e.drop_first(), x);
    }
}

} // verus!
