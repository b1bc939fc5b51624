//! Slash command parsing.

use vstd::prelude::*;
use crate::text::{lemma_trim_plain, chars_of, index_of_spec, lemma_index_of, same_text, starts_with_chars, starts_with_at,
    starts_with_spec, string_of_range, trim_spec, trim};

verus! {

/// A command typed at the prompt.
#[derive(Debug, Clone, PartialEq, Eq)]
pub enum SlashCommand {
    Help,
    Quit,
    Clear,
    New,
    Session,
    Reload,
    Fiwb,
    Skill { name: String, extra: String },
    Unknown(String),
}

pub enum SlashView {
    Help,
    Quit,
    Clear,
    New,
    Session,
    Reload,
    Fiwb,
    Skill { name: Seq<char>, extra: Seq<char> },
    Unknown(Seq<char>),
}

impl View for SlashCommand {
    type V = SlashView;

    open spec fn view(&self) -> SlashView {
        match self {
            SlashCommand::Help => SlashView::Help,
            SlashCommand::Quit => SlashView::Quit,
            SlashCommand::Clear => SlashView::Clear,
            SlashCommand::New => SlashView::New,
            SlashCommand::Session => SlashView::Session,
            SlashCommand::Reload => SlashView::Reload,
            SlashCommand::Fiwb => SlashView::Fiwb,
            SlashCommand::Skill { name, extra } => SlashView::Skill { name: name@, extra: extra@ },
            SlashCommand::Unknown(s) => SlashView::Unknown(s@),
        }
    }
}

/// `s` with every leading copy of `p` removed (`str::trim_start_matches`).
pub open spec fn strip_prefixes(s: Seq<char>, p: Seq<char>) -> Seq<char>
    decreases s.len(),
{
    if p.len() > 0 && starts_with_spec(s, p) {
        strip_prefixes(s.skip(p.len() as int), p)
    } else {
        s
    }
}

/// The command named by a `/skill:` line whose text after the prefixes is `rest`:
/// the name runs to the first space, the rest (trimmed) is the extra text.
pub open spec fn skill_command(rest: Seq<char>) -> SlashView {
    let k = index_of_spec(rest, ' ');
    if k < 0 {
        SlashView::Skill { name: rest, extra: Seq::empty() }
    } else {
        SlashView::Skill { name: rest.take(k), extra: trim_spec(rest.skip(k + 1)) }
    }
}

/// How a line of input reads as a slash command.
pub open spec fn parse_spec(input: Seq<char>) -> Option<SlashView> {
    let t = trim_spec(input);
    if !(t.len() > 0 && t[0] == '/') {
        None
    } else if t == "/help"@ {
        Some(SlashView::Help)
    } else if t == "/quit"@ || t == "/exit"@ {
        Some(SlashView::Quit)
    } else if t == "/clear"@ {
        Some(SlashView::Clear)
    } else if t == "/new"@ {
        Some(SlashView::New)
    } else if t == "/session"@ {
        Some(SlashView::Session)
    } else if t == "/reload"@ {
        Some(SlashView::Reload)
    } else if t == "/fiwb"@ || t == "/yolo"@ {
        Some(SlashView::Fiwb)
    } else if starts_with_spec(t, "/skill:"@) {
        Some(skill_command(strip_prefixes(t, "/skill:"@)))
    } else {
        Some(SlashView::Unknown(t))
    }
}

fn skill_from_rest(v: &[char], start: usize) -> (r: SlashCommand)
    requires
        start <= v@.len(),
    ensures
        r@ == skill_command(v@.skip(start as int)),
{
    let ghost rest = v@.skip(start as int);
    let n = v.len();
    let mut i: usize = start;
    while i < n && v[i] != ' '
        invariant
            start <= i <= n == v@.len(),
            forall|j: int| start <= j < i ==> v@[j] != ' ',
        decreases n - i,
    {
        i += 1;
    }
    proof {
        lemma_index_of(rest, ' ');
        let k = index_of_spec(rest, ' ');
        if i < n {
            assert(rest[i - start] == v@[i as int]);
            assert(k == i - start) by {
                if k < i - start && k >= 0 {
                    assert(rest[k] == v@[start + k]);
                }
                if k < 0 {
                    assert(rest[i - start] == ' ');
                }
            }
        } else {
            assert(k < 0) by {
                if k >= 0 {
                    assert(rest[k] == v@[start + k]);
                }
            }
        }
    }
    let name = string_of_range(v, start, i);
    if i < n {
        let tail_start = i + 1;
        let tail = string_of_range(v, tail_start, n);
        let extra = trim(tail.as_str());
        proof {
            assert(rest.take(i - start) =~= v@.subrange(start as int, i as int));
            assert(rest.skip(i - start + 1) =~= v@.subrange(tail_start as int, n as int));
        }
        SlashCommand::Skill { name, extra }
    } else {
        assert(rest =~= v@.subrange(start as int, i as int));
        SlashCommand::Skill { name, extra: String::new() }
    }
}

/// Reads `input` as a slash command; `None` when it does not start with `/`.
pub fn parse(input: &str) -> (r: Option<SlashCommand>)
    ensures
        match r {
            Some(c) => parse_spec(input@) == Some(c@),
            None => parse_spec(input@) is None,
        },
{
    let t = trim(input);
    let v = chars_of(t.as_str());
    if !(v.len() > 0 && v[0] == '/') {
        return None;
    }
    let s = t.as_str();
    if same_text(s, "/help") {
        return Some(SlashCommand::Help);
    }
    if same_text(s, "/quit") || same_text(s, "/exit") {
        return Some(SlashCommand::Quit);
    }
    if same_text(s, "/clear") {
        return Some(SlashCommand::Clear);
    }
    if same_text(s, "/new") {
        return Some(SlashCommand::New);
    }
    if same_text(s, "/session") {
        return Some(SlashCommand::Session);
    }
    if same_text(s, "/reload") {
        return Some(SlashCommand::Reload);
    }
    if same_text(s, "/fiwb") || same_text(s, "/yolo") {
        return Some(SlashCommand::Fiwb);
    }
    let prefix = chars_of("/skill:");
    proof {
        reveal_strlit("/skill:");
    }
    if starts_with_chars(v.as_slice(), prefix.as_slice()) {
        let m = prefix.len();
        let n = v.len();
        let mut start: usize = 0;
        assert(v@.skip(0) =~= v@);
        while starts_with_at(v.as_slice(), prefix.as_slice(), start)
            invariant
                start <= v@.len() == n,
                m == prefix@.len() > 0,
                strip_prefixes(v@, prefix@) == strip_prefixes(v@.skip(start as int), prefix@),
            decreases v@.len() - start,
        {
            proof {
                assert(v@.skip(start as int).skip(m as int) =~= v@.skip(start + m));
            }
            start = start + m;
        }
        proof {
            let w = v@.skip(start as int);

        }
        return Some(skill_from_rest(v.as_slice(), start));
    }
    Some(SlashCommand::Unknown(t))
}

/// Each built-in command word names its command, however much whitespace
/// surrounds it: `/help`, `/quit` and `/exit`, `/clear`, `/new`, `/session`,
/// `/reload`, and `/fiwb` and `/yolo`.
pub proof fn command_words_name_their_commands(input: Seq<char>)
    ensures
        trim_spec(input) == "/help"@ ==> parse_spec(input) == Some(SlashView::Help),
        trim_spec(input) == "/quit"@ ==> parse_spec(input) == Some(SlashView::Quit),
        trim_spec(input) == "/exit"@ ==> parse_spec(input) == Some(SlashView::Quit),
        trim_spec(input) == "/clear"@ ==> parse_spec(input) == Some(SlashView::Clear),
        trim_spec(input) == "/new"@ ==> parse_spec(input) == Some(SlashView::New),
        trim_spec(input) == "/session"@ ==> parse_spec(input) == Some(SlashView::Session),
        trim_spec(input) == "/reload"@ ==> parse_spec(input) == Some(SlashView::Reload),
        trim_spec(input) == "/fiwb"@ ==> parse_spec(input) == Some(SlashView::Fiwb),
        trim_spec(input) == "/yolo"@ ==> parse_spec(input) == Some(SlashView::Fiwb),
        parse_spec("/help"@) == Some(SlashView::Help),
        parse_spec("/quit"@) == Some(SlashView::Quit),
        parse_spec("/exit"@) == Some(SlashView::Quit),
        parse_spec("/clear"@) == Some(SlashView::Clear),
        parse_spec("/new"@) == Some(SlashView::New),
        parse_spec("/session"@) == Some(SlashView::Session),
        parse_spec("/reload"@) == Some(SlashView::Reload),
        parse_spec("/fiwb"@) == Some(SlashView::Fiwb),
        parse_spec("/yolo"@) == Some(SlashView::Fiwb),
{
    reveal_strlit("/help");
    reveal_strlit("/quit");
    reveal_strlit("/exit");
    reveal_strlit("/clear");
    reveal_strlit("/new");
    reveal_strlit("/session");
    reveal_strlit("/reload");
    reveal_strlit("/fiwb");
    reveal_strlit("/yolo");
    lemma_trim_plain("/help"@);
    lemma_trim_plain("/quit"@);
    lemma_trim_plain("/exit"@);
    lemma_trim_plain("/clear"@);
    lemma_trim_plain("/new"@);
    lemma_trim_plain("/session"@);
    lemma_trim_plain("/reload"@);
    lemma_trim_plain("/fiwb"@);
    lemma_trim_plain("/yolo"@);
}

} // verus!
