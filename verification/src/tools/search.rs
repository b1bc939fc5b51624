//! Web search and code search through the Exa API: the requests' arguments
//! and the text made of Exa's answers.

use vstd::prelude::*;
use crate::json::{json_str_field, json_string_field, json_u64_field, json_unsigned_field};
use crate::text::{chars_of, contains, contains_spec, copy_str, decimal_spec, join, join_spec, push_decimal,
    string_of_range, trim_bounds, trim_spec, views};
use crate::tools::{integer_param, object_schema, string_param, ParamSpec, ToolOutput, ToolOutputView, ToolSpec};

verus! {

fn bounded_integer_param(name: &'static str, description: &'static str) -> (p: ParamSpec)
    ensures
        p.name == name,
        p.description == description,
        p.kind == crate::tools::ParamKind::Int,
        p.minimum == Some(1u64),
        p.maximum == Some(20u64),
{
    let mut p = integer_param(name, description);
    p.minimum = Some(1);
    p.maximum = Some(20);
    p
}

pub fn web_search_spec() -> (t: ToolSpec)
    ensures
        t.name == "web_search",
        t.parameters.required@ == seq!["query"],
        t.parameters.properties@.len() == 2,
        t.parameters.properties@[0].name == "query",
        t.parameters.properties@[1].name == "num_results",
{
    let mut props: Vec<ParamSpec> = Vec::new();
    props.push(string_param("query", "Search query"));
    props.push(bounded_integer_param("num_results", "Number of results (default 5, max 20)"));
    let mut required: Vec<&'static str> = Vec::new();
    required.push("query");
    assert(required@ =~= seq!["query"]);
    ToolSpec {
        name: "web_search",
        description: "Search the web for information. Returns results with sources and snippets. Requires exa_api_key in ~/.sabi/auth.toml or EXA_API_KEY in the environment.",
        parameters: object_schema(props, required),
    }
}

pub fn exa_search_spec() -> (t: ToolSpec)
    ensures
        t.name == "exa_search",
        t.parameters.required@ == seq!["query"],
        t.parameters.properties@.len() == 2,
        t.parameters.properties@[0].name == "query",
        t.parameters.properties@[1].name == "num_results",
{
    let mut props: Vec<ParamSpec> = Vec::new();
    props.push(string_param("query", "Programming question, API, library, or debugging topic"));
    props.push(bounded_integer_param("num_results", "Number of results (default 10, max 20)"));
    let mut required: Vec<&'static str> = Vec::new();
    required.push("query");
    assert(required@ =~= seq!["query"]);
    ToolSpec {
        name: "exa_search",
        description: "Search for code examples, documentation, and API references using Exa's neural code search. Requires exa_api_key in ~/.sabi/auth.toml or EXA_API_KEY in the environment.",
        parameters: object_schema(props, required),
    }
}

/// The most results a search asks for.
pub const MAX_SEARCH_RESULTS: u64 = 20;

/// The count asked for: the given one or `default_count`, at most
/// `MAX_SEARCH_RESULTS`.
pub open spec fn capped_count(given: Option<u64>, default_count: u64) -> u64 {
    let n = match given {
        Some(n) => n,
        None => default_count,
    };
    if n < MAX_SEARCH_RESULTS { n } else { MAX_SEARCH_RESULTS }
}

/// What a search call asks for: its query and result count.
pub open spec fn search_request_spec(args: Seq<char>, default_count: u64) -> Result<(Seq<char>, u64), Seq<char>> {
    match json_string_field(args, "query"@) {
        None => Err("missing query"@),
        Some(q) => Ok((q, capped_count(json_unsigned_field(args, "num_results"@), default_count))),
    }
}

/// Reads the query and result count of a search call from its JSON
/// arguments; `default_count` applies when no count is given, and the count
/// is capped at `MAX_SEARCH_RESULTS`.
pub fn search_request(args: &str, default_count: u64) -> (r: Result<(String, u64), String>)
    ensures
        match r {
            Ok((q, n)) => search_request_spec(args@, default_count) == Ok::<(Seq<char>, u64), Seq<char>>((q@, n)),
            Err(e) => search_request_spec(args@, default_count) == Err::<(Seq<char>, u64), Seq<char>>(e@),
        },
{
    let query = match json_str_field(args, "query") {
        Some(q) => q,
        None => return Err(copy_str("missing query")),
    };
    let n = match json_u64_field(args, "num_results") {
        Some(n) => n,
        None => default_count,
    };
    let n = if n < MAX_SEARCH_RESULTS { n } else { MAX_SEARCH_RESULTS };
    Ok((query, n))
}

/// The failure when no Exa key is configured.
pub open spec fn missing_exa_key_spec() -> Seq<char> {
    "EXA_API_KEY not found. Add exa_api_key to ~/.sabi/auth.toml or set it in your environment"@
}

/// The Exa key to use, or the failure when there is none.
pub fn require_exa_key(key: Option<String>) -> (r: Result<String, String>)
    ensures
        match r {
            Ok(k) => key == Some(k),
            Err(e) => key is None && e@ == missing_exa_key_spec(),
        },
{
    match key {
        Some(k) => Ok(k),
        None => Err(copy_str("EXA_API_KEY not found. Add exa_api_key to ~/.sabi/auth.toml or set it in your environment")),
    }
}

/// The output of a search: its text, or the search error.
pub fn search_output(result: Result<String, String>) -> (r: ToolOutput)
    ensures
        match result {
            Ok(t) => r@ == (ToolOutputView { content: t@, is_error: false, events: Seq::empty() }),
            Err(e) => r@ == (ToolOutputView { content: "Search error: "@ + e@, is_error: true, events: Seq::empty() }),
        },
{
    match result {
        Ok(text) => crate::tools::success(text),
        Err(error) => {
            let mut msg = copy_str("Search error: ");
            msg.push_str(error.as_str());
            crate::tools::failure(msg)
        },
    }
}

/// `str::to_lowercase`: Unicode lowercase mapping of `s`.
pub uninterp spec fn lowercase(s: Seq<char>) -> Seq<char>;

/// Calls `str::to_lowercase`; the result is named `lowercase(s)`.
#[verifier::external_body]
pub(crate) fn to_lowercase(s: &str) -> (r: String)
    ensures
        r@ == lowercase(s@),
{
    s.to_lowercase()
}

/// Terms that mark a query as already about code.
pub open spec fn code_terms() -> Seq<Seq<char>> {
    seq!["api"@, "code"@, "docs"@, "documentation"@, "example"@, "github"@, "implementation"@,
        "library"@, "source"@, "stackoverflow"@]
}

/// The query sent for a code search: unchanged when its lowercase form
/// mentions a code term, otherwise extended with code-oriented words.
pub open spec fn code_query_spec(query: Seq<char>) -> Seq<char> {
    if exists|i: int| 0 <= i < code_terms().len() && contains_spec(lowercase(query), #[trigger] code_terms()[i]) {
        query
    } else {
        query + " code examples documentation GitHub"@
    }
}

pub fn build_code_query(query: &str) -> (r: String)
    ensures
        r@ == code_query_spec(query@),
{
    let normalized = to_lowercase(query);
    let terms: [&str; 10] = ["api", "code", "docs", "documentation", "example", "github",
        "implementation", "library", "source", "stackoverflow"];
    let ghost tv = code_terms();
    assert(tv.len() == 10);
    let mut i: usize = 0;
    let mut found = false;
    while i < 10
        invariant
            i <= 10,
            tv == code_terms(),
            normalized@ == lowercase(query@),
            forall|k: int| 0 <= k < 10 ==> (#[trigger] terms@[k])@ == tv[k],
            found == exists|k: int| 0 <= k < i && contains_spec(lowercase(query@), #[trigger] tv[k]),
        decreases 10 - i,
    {
        let t = terms[i];
        assert(t@ == tv[i as int]);
        let c = contains(normalized.as_str(), t);
        if c {
            found = true;
        }
        assert(found == exists|k: int| 0 <= k < i + 1 && contains_spec(lowercase(query@), #[trigger] tv[k])) by {
            if c {
                assert(contains_spec(lowercase(query@), tv[i as int]));
            }
        }
        i += 1;
    }
    if found {
        copy_str(query)
    } else {
        let mut r = copy_str(query);
        r.push_str(" code examples documentation GitHub");
        r
    }
}

/// One result of an Exa `/search` call.
#[derive(Debug, Clone)]
pub struct SearchHit {
    pub title: Option<String>,
    pub url: Option<String>,
    pub text: Option<String>,
    /// The highlights; an entry is `None` where Exa sent a non-string.
    pub highlights: Vec<Option<String>>,
}

/// One source cited by an Exa `/answer` call.
#[derive(Debug, Clone)]
pub struct Citation {
    pub url: Option<String>,
    pub title: Option<String>,
}

pub open spec fn opt_view(o: Option<String>) -> Option<Seq<char>> {
    match o {
        Some(s) => Some(s@),
        None => None,
    }
}

pub open spec fn or_default(o: Option<String>, d: Seq<char>) -> Seq<char> {
    match o {
        Some(s) => s@,
        None => d,
    }
}

/// The string highlights of a hit, in order.
pub open spec fn string_highlights(h: Seq<Option<String>>) -> Seq<Seq<char>>
    decreases h.len(),
{
    if h.len() == 0 {
        Seq::empty()
    } else {
        string_highlights(h.drop_last()) + match h.last() {
            Some(s) => seq![s@],
            None => Seq::<Seq<char>>::empty(),
        }
    }
}

/// What a hit shows: its highlights joined by spaces, or else the first
/// 1000 characters of its trimmed text.
pub open spec fn hit_content(hit: SearchHit) -> Seq<char> {
    let hs = string_highlights(hit.highlights@);
    if hs.len() > 0 {
        join_spec(hs, " "@)
    } else {
        let t = trim_spec(or_default(hit.text, Seq::empty()));
        t.take(if t.len() < 1000 { t.len() as int } else { 1000 })
    }
}

/// The block for the hit at position `i` (0-based).
pub open spec fn hit_block(i: nat, hit: SearchHit) -> Seq<char> {
    decimal_spec(i + 1) + ". "@ + or_default(hit.title, "Untitled"@) + "\n   URL: "@
        + or_default(hit.url, Seq::empty()) + "\n   "@ + hit_content(hit) + "\n"@
}

pub open spec fn hit_blocks(hits: Seq<SearchHit>) -> Seq<Seq<char>> {
    Seq::new(hits.len(), |i: int| hit_block(i as nat, hits[i]))
}

/// The text made of Exa search results.
pub open spec fn format_search_results_spec(hits: Seq<SearchHit>) -> Seq<char> {
    if hits.len() == 0 {
        "No results found."@
    } else {
        join_spec(hit_blocks(hits), "\n"@)
    }
}

fn highlights_of(h: &Vec<Option<String>>) -> (r: Vec<String>)
    ensures
        views(r@) == string_highlights(h@),
{
    let mut r: Vec<String> = Vec::new();
    let mut i: usize = 0;
    while i < h.len()
        invariant
            i <= h@.len(),
            views(r@) == string_highlights(h@.take(i as int)),
        decreases h@.len() - i,
    {
        let ghost before = views(r@);
        match &h[i] {
            Some(s) => {
                r.push(s.clone());
                assert(views(r@) =~= before + seq![s@]);
            },
            None => {},
        }
        assert(h@.take(i + 1).drop_last() =~= h@.take(i as int));
        i += 1;
    }
    assert(h@.take(h@.len() as int) =~= h@);
    r
}

fn content_of(hit: &SearchHit) -> (r: String)
    ensures
        r@ == hit_content(*hit),
{
    let hs = highlights_of(&hit.highlights);
    if hs.len() > 0 {
        return join(hs.as_slice(), " ");
    }
    let text = match &hit.text {
        Some(t) => copy_str(t.as_str()),
        None => String::new(),
    };
    let v = chars_of(text.as_str());
    let (a, b) = trim_bounds(v.as_slice());
    let end = if b - a < 1000 { b } else { a + 1000 };
    let r = string_of_range(v.as_slice(), a, end);
    assert(trim_spec(v@).take((end - a) as int) =~= v@.subrange(a as int, end as int));
    r
}

fn opt_text(o: &Option<String>, d: &str) -> (r: String)
    ensures
        r@ == or_default(*o, d@),
{
    match o {
        Some(s) => s.clone(),
        None => copy_str(d),
    }
}

/// Formats Exa search results, numbered from 1.
pub fn format_search_results(hits: &Vec<SearchHit>) -> (r: String)
    ensures
        r@ == format_search_results_spec(hits@),
{
    if hits.len() == 0 {
        return copy_str("No results found.");
    }
    let mut parts: Vec<String> = Vec::new();
    let mut i: usize = 0;
    while i < hits.len()
        invariant
            i <= hits@.len(),
            views(parts@) == hit_blocks(hits@).take(i as int),
        decreases hits@.len() - i,
    {
        let hit = &hits[i];
        let mut block = String::new();
        push_decimal(&mut block, (i as u64) + 1);
        block.push_str(". ");
        block.push_str(opt_text(&hit.title, "Untitled").as_str());
        block.push_str("\n   URL: ");
        block.push_str(opt_text(&hit.url, "").as_str());
        block.push_str("\n   ");
        block.push_str(content_of(hit).as_str());
        block.push_str("\n");
        proof {
            reveal_strlit("");
            assert(""@ =~= Seq::<char>::empty());
            assert(block@ =~= hit_block(i as nat, hits@[i as int]));
        }
        let ghost before = views(parts@);
        parts.push(block);
        assert(views(parts@) =~= before.push(block@));
        assert(hit_blocks(hits@).take(i + 1) =~= hit_blocks(hits@).take(i as int).push(hit_block(i as nat, hits@[i as int])));
        i += 1;
    }
    assert(hit_blocks(hits@).take(hits@.len() as int) =~= hit_blocks(hits@));
    join(parts.as_slice(), "\n")
}

pub open spec fn citation_line(i: nat, c: Citation) -> Seq<char> {
    decimal_spec(i + 1) + ". "@ + or_default(c.title, "Untitled"@) + " ("@ + or_default(c.url, Seq::empty()) + ")"@
}

/// The sources list of an Exa answer; empty when there are none.
pub open spec fn format_citations_spec(citations: Option<Seq<Citation>>) -> Seq<char> {
    match citations {
        Some(c) => if c.len() > 0 {
            join_spec(seq!["Sources:"@] + Seq::new(c.len(), |i: int| citation_line(i as nat, c[i])), "\n"@)
        } else {
            Seq::empty()
        },
        None => Seq::empty(),
    }
}

pub fn format_citations(citations: &Option<Vec<Citation>>) -> (r: String)
    ensures
        r@ == format_citations_spec(match citations { Some(c) => Some(c@), None => None }),
{
    let c = match citations {
        Some(c) => {
            if c.len() == 0 {
                return String::new();
            }
            c
        },
        None => return String::new(),
    };
    let mut lines: Vec<String> = Vec::new();
    lines.push(copy_str("Sources:"));
    let ghost want = seq!["Sources:"@] + Seq::new(c@.len(), |i: int| citation_line(i as nat, c@[i]));
    let mut i: usize = 0;
    while i < c.len()
        invariant
            i <= c@.len(),
            want == seq!["Sources:"@] + Seq::new(c@.len(), |i: int| citation_line(i as nat, c@[i])),
            views(lines@) == want.take(i + 1),
        decreases c@.len() - i,
    {
        let mut line = String::new();
        push_decimal(&mut line, (i as u64) + 1);
        line.push_str(". ");
        line.push_str(opt_text(&c[i].title, "Untitled").as_str());
        line.push_str(" (");
        line.push_str(opt_text(&c[i].url, "").as_str());
        line.push_str(")");
        proof {
            reveal_strlit("");
            assert(""@ =~= Seq::<char>::empty());
            assert(line@ =~= citation_line(i as nat, c@[i as int]));
        }
        let ghost before = views(lines@);
        lines.push(line);
        assert(views(lines@) =~= before.push(line@));
        assert(want.take(i + 2) =~= want.take(i + 1).push(citation_line(i as nat, c@[i as int])));
        i += 1;
    }
    assert(want.take((c@.len() + 1) as int) =~= want);
    join(lines.as_slice(), "\n")
}

/// The text of an Exa answer followed by its sources.
pub fn answer_text(answer: &str, citations: &Option<Vec<Citation>>) -> (r: String)
    ensures
        r@ == answer@ + "\n\n"@ + format_citations_spec(match citations { Some(c) => Some(c@), None => None }),
{
    let mut r = copy_str(answer);
    r.push_str("\n\n");
    r.push_str(format_citations(citations).as_str());
    r
}

/// What an Exa `/answer` reply gives: its answer with the sources, or
/// `None` when it holds no answer and the search falls back to `/search`.
pub fn answer_reply(answer: Option<String>, citations: &Option<Vec<Citation>>) -> (r: Option<String>)
    ensures
        match answer {
            Some(a) => r matches Some(t) && t@ == a@ + "\n\n"@
                + format_citations_spec(match citations { Some(c) => Some(c@), None => None }),
            None => r is None,
        },
{
    match answer {
        Some(a) => Some(answer_text(a.as_str(), citations)),
        None => None,
    }
}

/// The failure for a `/search` reply whose status is not a success.
pub fn exa_api_error(body: &str) -> (r: String)
    ensures
        r@ == "Exa API error: "@ + body@,
{
    let mut r = copy_str("Exa API error: ");
    r.push_str(body);
    r
}

/// A search never asks for more than `MAX_SEARCH_RESULTS` results, and asks
/// for the default count (when within the cap) when none is given.
pub proof fn search_count_capped(args: Seq<char>, default_count: u64)
    ensures
        search_request_spec(args, default_count) matches Ok((_, n)) ==> n <= MAX_SEARCH_RESULTS,
        json_unsigned_field(args, "num_results"@) is None && default_count <= MAX_SEARCH_RESULTS
            ==> (search_request_spec(args, default_count) matches Ok((_, n)) ==> n == default_count),
{
}

} // verus!
