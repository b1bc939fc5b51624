//! First-launch setup: how the answers typed at the prompts become the user's
//! presets and stored keys.

use vstd::prelude::*;
use crate::config::{AuthFile, ConfigFile, opt_view};
use crate::text::{copy_str, trim, trim_spec};

verus! {

/// An answer that declines: `n` in either case, around whitespace.
pub open spec fn declines_spec(answer: Seq<char>) -> bool {
    trim_spec(answer) == "n"@ || trim_spec(answer) == "N"@
}

/// Whether the user declined a `[Y/n]` question.
pub fn declines(answer: &str) -> (b: bool)
    ensures
        b == declines_spec(answer@),
{
    let t = trim(answer);
    crate::text::same_text(t.as_str(), "n") || crate::text::same_text(t.as_str(), "N")
}

/// The value of a prompt with a default: the trimmed input, or the default
/// when nothing was typed.
pub open spec fn value_or_default_spec(input: Seq<char>, default: Seq<char>) -> Seq<char> {
    if trim_spec(input).len() == 0 { default } else { trim_spec(input) }
}

pub fn value_or_default(input: &str, default: &str) -> (r: String)
    ensures
        r@ == value_or_default_spec(input@, default@),
{
    let t = trim(input);
    if t.as_str().unicode_len() == 0 {
        copy_str(default)
    } else {
        t
    }
}

/// The presets written on first launch: none when the user declined, else the
/// model and endpoint typed (or their defaults).
pub fn onboarding_presets(declined: bool, model_input: &str, base_url_input: &str) -> (c: ConfigFile)
    ensures
        declined ==> c.model is None && c.base_url is None,
        !declined ==> opt_view(c.model) == Some(value_or_default_spec(model_input@, "gpt-5.5"@))
            && opt_view(c.base_url) == Some(value_or_default_spec(base_url_input@, "https://api.avemujica.moe/v1"@)),
{
    if declined {
        ConfigFile { model: None, base_url: None }
    } else {
        ConfigFile {
            model: Some(value_or_default(model_input, "gpt-5.5")),
            base_url: Some(value_or_default(base_url_input, "https://api.avemujica.moe/v1")),
        }
    }
}

/// The comment put above the presets in `~/.sabi/config.toml`.
pub open spec fn config_header() -> Seq<char> {
    "# Sabi Agent user-level presets\n# These can be overridden per-project with sabi.toml\n# You can also use env vars: RUST_PI_MODEL, RUST_PI_BASE_URL\n\n"@
}

/// The content of `~/.sabi/config.toml` for the serialized presets `body`.
pub fn config_file_text(body: &str) -> (r: String)
    ensures
        r@ == config_header() + body@,
{
    let mut r = copy_str("# Sabi Agent user-level presets\n# These can be overridden per-project with sabi.toml\n# You can also use env vars: RUST_PI_MODEL, RUST_PI_BASE_URL\n\n");
    r.push_str(body);
    r
}

/// The keys to store from what was typed: nothing without an OpenAI key;
/// the Exa key only when one was typed. Both are trimmed.
pub fn keys_to_store(openai_input: &str, exa_input: &str) -> (r: Option<AuthFile>)
    ensures
        trim_spec(openai_input@).len() == 0 <==> r is None,
        r matches Some(a) ==> opt_view(a.openai_api_key) == Some(trim_spec(openai_input@))
            && opt_view(a.exa_api_key) == if trim_spec(exa_input@).len() == 0 { None } else { Some(trim_spec(exa_input@)) },
{
    let openai = trim(openai_input);
    if openai.as_str().unicode_len() == 0 {
        return None;
    }
    let exa = trim(exa_input);
    let exa_key = if exa.as_str().unicode_len() == 0 { None } else { Some(exa) };
    Some(AuthFile { openai_api_key: Some(openai), exa_api_key: exa_key })
}

} // verus!
