//! Settings: where sabi keeps its files under the home directory, which API
//! keys count, and how a model and endpoint are chosen from the project file,
//! the user file, the environment and the defaults.

use vstd::prelude::*;
use crate::text::{blank, copy_str, is_blank};
use crate::tools::{join_path_spec, resolve_path};

verus! {

/// The settings a session runs with.
#[derive(Debug, Clone)]
pub struct AppConfig {
    pub cwd: String,
    pub model: String,
    pub base_url: String,
    pub api_key: String,
    pub exa_api_key: Option<String>,
}

/// User-level presets (`~/.sabi/config.toml`) or project overrides (`sabi.toml`).
#[derive(Debug, Clone)]
pub struct ConfigFile {
    pub model: Option<String>,
    pub base_url: Option<String>,
}

/// The credentials file `~/.sabi/auth.toml`.
#[derive(Debug, Clone)]
pub struct AuthFile {
    pub openai_api_key: Option<String>,
    pub exa_api_key: Option<String>,
}

/// Everything a configuration is made of, as read from disk and the
/// environment: each file is `None` when it is missing or does not parse,
/// each variable `None` when it is unset.
#[derive(Debug, Clone)]
pub struct ConfigSources {
    pub auth: Option<AuthFile>,
    pub user: Option<ConfigFile>,
    pub project: Option<ConfigFile>,
    pub env_openai_api_key: Option<String>,
    pub env_exa_api_key: Option<String>,
    pub env_model: Option<String>,
    pub env_base_url: Option<String>,
}

pub open spec fn opt_view(o: Option<String>) -> Option<Seq<char>> {
    match o {
        Some(s) => Some(s@),
        None => None,
    }
}

/// `~/.sabi` for the home directory `home`; `None` without one.
pub open spec fn sabi_dir_spec(home: Option<Seq<char>>) -> Option<Seq<char>> {
    match home {
        Some(h) => Some(join_path_spec(h, ".sabi"@)),
        None => None,
    }
}

/// A file or directory directly under `~/.sabi`.
pub open spec fn sabi_path_spec(home: Option<Seq<char>>, name: Seq<char>) -> Option<Seq<char>> {
    match sabi_dir_spec(home) {
        Some(d) => Some(join_path_spec(d, name)),
        None => None,
    }
}

/// The `.sabi` directory under `home`.
pub fn sabi_dir(home: Option<&str>) -> (r: Option<String>)
    ensures
        opt_view(r) == sabi_dir_spec(match home { Some(h) => Some(h@), None => None }),
{
    match home {
        Some(h) => Some(resolve_path(h, ".sabi")),
        None => None,
    }
}

fn sabi_path(home: Option<&str>, name: &str) -> (r: Option<String>)
    ensures
        opt_view(r) == sabi_path_spec(match home { Some(h) => Some(h@), None => None }, name@),
{
    match sabi_dir(home) {
        Some(d) => Some(resolve_path(d.as_str(), name)),
        None => None,
    }
}

/// `~/.sabi/config.toml`.
pub fn user_config_path(home: Option<&str>) -> (r: Option<String>)
    ensures
        opt_view(r) == sabi_path_spec(match home { Some(h) => Some(h@), None => None }, "config.toml"@),
{
    sabi_path(home, "config.toml")
}

/// `~/.sabi/auth.toml`.
pub fn auth_path(home: Option<&str>) -> (r: Option<String>)
    ensures
        opt_view(r) == sabi_path_spec(match home { Some(h) => Some(h@), None => None }, "auth.toml"@),
{
    sabi_path(home, "auth.toml")
}

/// `~/.sabi/sessions`.
pub fn sessions_dir(home: Option<&str>) -> (r: Option<String>)
    ensures
        opt_view(r) == sabi_path_spec(match home { Some(h) => Some(h@), None => None }, "sessions"@),
{
    sabi_path(home, "sessions")
}

/// `~/.sabi/history`.
pub fn history_path(home: Option<&str>) -> (r: Option<String>)
    ensures
        opt_view(r) == sabi_path_spec(match home { Some(h) => Some(h@), None => None }, "history"@),
{
    sabi_path(home, "history")
}

/// A value that counts: present and not all whitespace.
pub open spec fn non_empty_spec(value: Option<Seq<char>>) -> Option<Seq<char>> {
    match value {
        Some(v) => if is_blank(v) { None } else { Some(v) },
        None => None,
    }
}

/// `value` unless it is missing or all whitespace.
pub fn non_empty(value: Option<&str>) -> (r: Option<&str>)
    ensures
        match r {
            Some(s) => non_empty_spec(match value { Some(v) => Some(v@), None => None }) == Some(s@)
                && value == Some(s),
            None => non_empty_spec(match value { Some(v) => Some(v@), None => None }) is None,
        },
{
    match value {
        Some(v) => if blank(v) { None } else { Some(v) },
        None => None,
    }
}

/// An environment variable's value unless it is unset or all whitespace.
pub fn non_empty_env(value: Option<String>) -> (r: Option<String>)
    ensures
        opt_view(r) == non_empty_spec(opt_view(value)),
{
    match value {
        Some(v) => if blank(v.as_str()) { None } else { Some(v) },
        None => None,
    }
}

/// A key from the credentials file when it counts, else from the environment
/// when that counts.
pub open spec fn key_choice(from_file: Option<Seq<char>>, from_env: Option<Seq<char>>) -> Option<Seq<char>> {
    match non_empty_spec(from_file) {
        Some(k) => Some(k),
        None => non_empty_spec(from_env),
    }
}

pub open spec fn auth_openai(auth: Option<AuthFile>) -> Option<Seq<char>> {
    match auth {
        Some(a) => opt_view(a.openai_api_key),
        None => None,
    }
}

pub open spec fn auth_exa(auth: Option<AuthFile>) -> Option<Seq<char>> {
    match auth {
        Some(a) => opt_view(a.exa_api_key),
        None => None,
    }
}

pub open spec fn missing_openai_key_spec() -> Seq<char> {
    "OPENAI_API_KEY not found. Add it to ~/.sabi/auth.toml or set it in your environment"@
}

fn choose_key(from_file: &Option<String>, from_env: &Option<String>) -> (r: Option<String>)
    ensures
        opt_view(r) == key_choice(opt_view(*from_file), opt_view(*from_env)),
{
    let file_value: Option<&str> = match from_file {
        Some(s) => Some(s.as_str()),
        None => None,
    };
    match non_empty(file_value) {
        Some(k) => Some(copy_str(k)),
        None => match from_env {
            Some(e) => if blank(e.as_str()) { None } else { Some(e.clone()) },
            None => None,
        },
    }
}

/// The OpenAI key: the credentials file's when it counts, else
/// `OPENAI_API_KEY`'s when that counts, else the error.
pub fn openai_api_key(auth: &Option<AuthFile>, env_value: &Option<String>) -> (r: Result<String, String>)
    ensures
        match r {
            Ok(k) => key_choice(auth_openai(*auth), opt_view(*env_value)) == Some(k@),
            Err(e) => key_choice(auth_openai(*auth), opt_view(*env_value)) is None
                && e@ == missing_openai_key_spec(),
        },
{
    let none: Option<String> = None;
    let from_file = match auth {
        Some(a) => &a.openai_api_key,
        None => &none,
    };
    match choose_key(from_file, env_value) {
        Some(k) => Ok(k),
        None => Err(copy_str("OPENAI_API_KEY not found. Add it to ~/.sabi/auth.toml or set it in your environment")),
    }
}

/// The Exa key: the credentials file's when it counts, else
/// `EXA_API_KEY`'s when that counts.
pub fn exa_api_key(auth: &Option<AuthFile>, env_value: &Option<String>) -> (r: Option<String>)
    ensures
        opt_view(r) == key_choice(auth_exa(*auth), opt_view(*env_value)),
{
    let none: Option<String> = None;
    let from_file = match auth {
        Some(a) => &a.exa_api_key,
        None => &none,
    };
    choose_key(from_file, env_value)
}

pub open spec fn project_model(c: Option<ConfigFile>) -> Option<Seq<char>> {
    match c {
        Some(f) => opt_view(f.model),
        None => None,
    }
}

pub open spec fn project_base_url(c: Option<ConfigFile>) -> Option<Seq<char>> {
    match c {
        Some(f) => opt_view(f.base_url),
        None => None,
    }
}

/// The first value present in the project file, the user file and the
/// environment, in that order, else `default`.
pub open spec fn setting_choice(
    project: Option<Seq<char>>,
    user: Option<Seq<char>>,
    env: Option<Seq<char>>,
    default: Seq<char>,
) -> Seq<char> {
    match project {
        Some(v) => v,
        None => match user {
            Some(v) => v,
            None => match env {
                Some(v) => v,
                None => default,
            },
        },
    }
}

pub open spec fn default_model() -> Seq<char> {
    "gpt-5.5"@
}

pub open spec fn default_base_url() -> Seq<char> {
    "https://api.avemujica.moe/v1"@
}

fn first_of(a: &Option<String>, b: &Option<String>, c: &Option<String>, default: &str) -> (r: String)
    ensures
        r@ == setting_choice(opt_view(*a), opt_view(*b), opt_view(*c), default@),
{
    match a {
        Some(v) => v.clone(),
        None => match b {
            Some(v) => v.clone(),
            None => match c {
                Some(v) => v.clone(),
                None => copy_str(default),
            },
        },
    }
}

fn file_field(f: &Option<ConfigFile>, model: bool) -> (r: Option<String>)
    ensures
        opt_view(r) == if model { project_model(*f) } else { project_base_url(*f) },
{
    match f {
        Some(c) => if model { c.model.clone() } else { c.base_url.clone() },
        None => None,
    }
}

/// The OpenAI key a configuration gets from `s`.
pub open spec fn chosen_api_key(s: ConfigSources) -> Option<Seq<char>> {
    key_choice(auth_openai(s.auth), opt_view(s.env_openai_api_key))
}

/// The Exa key a configuration gets from `s`.
pub open spec fn chosen_exa_key(s: ConfigSources) -> Option<Seq<char>> {
    key_choice(auth_exa(s.auth), opt_view(s.env_exa_api_key))
}

/// The model a configuration gets from `s`.
pub open spec fn chosen_model(s: ConfigSources) -> Seq<char> {
    setting_choice(project_model(s.project), project_model(s.user), opt_view(s.env_model), default_model())
}

/// The endpoint a configuration gets from `s`.
pub open spec fn chosen_base_url(s: ConfigSources) -> Seq<char> {
    setting_choice(project_base_url(s.project), project_base_url(s.user), opt_view(s.env_base_url), default_base_url())
}

impl AppConfig {
    /// The configuration for a session in `cwd`: fails only when no OpenAI
    /// key counts; the model and endpoint come from the project file, else
    /// the user file, else `RUST_PI_MODEL` / `RUST_PI_BASE_URL`, else the
    /// defaults.
    pub fn load_for_cwd(cwd: String, sources: &ConfigSources) -> (r: Result<AppConfig, String>)
        ensures
            match r {
                Ok(c) => {
                    &&& chosen_api_key(*sources) == Some(c.api_key@)
                    &&& opt_view(c.exa_api_key) == chosen_exa_key(*sources)
                    &&& c.cwd@ == cwd@
                    &&& c.model@ == chosen_model(*sources)
                    &&& c.base_url@ == chosen_base_url(*sources)
                    &&& project_model(sources.project) matches Some(v) ==> c.model@ == v
                    &&& project_model(sources.project) is None ==> (project_model(sources.user) matches Some(v) ==> c.model@ == v)
                    &&& project_model(sources.project) is None && project_model(sources.user) is None ==> (sources.env_model matches Some(v) ==> c.model@ == v@)
                    &&& project_model(sources.project) is None && project_model(sources.user) is None && sources.env_model is None ==> c.model@ == "gpt-5.5"@
                    &&& project_base_url(sources.project) matches Some(v) ==> c.base_url@ == v
                    &&& project_base_url(sources.project) is None ==> (project_base_url(sources.user) matches Some(v) ==> c.base_url@ == v)
                    &&& project_base_url(sources.project) is None && project_base_url(sources.user) is None ==> (sources.env_base_url matches Some(v) ==> c.base_url@ == v@)
                    &&& project_base_url(sources.project) is None && project_base_url(sources.user) is None && sources.env_base_url is None ==> c.base_url@ == "https://api.avemujica.moe/v1"@
                },
                Err(e) => chosen_api_key(*sources) is None && e@ == missing_openai_key_spec(),
            },
    {
        let api_key = match openai_api_key(&sources.auth, &sources.env_openai_api_key) {
            Ok(k) => k,
            Err(e) => return Err(e),
        };
        let exa_api_key = exa_api_key(&sources.auth, &sources.env_exa_api_key);
        let model = first_of(
            &file_field(&sources.project, true),
            &file_field(&sources.user, true),
            &sources.env_model,
            "gpt-5.5",
        );
        let base_url = first_of(
            &file_field(&sources.project, false),
            &file_field(&sources.user, false),
            &sources.env_base_url,
            "https://api.avemujica.moe/v1",
        );
        Ok(AppConfig { cwd, model, base_url, api_key, exa_api_key })
    }
}

/// A key in the credentials file that counts is used whatever the
/// environment holds; the environment is consulted only when the file has
/// none.
pub proof fn credentials_file_wins(from_file: Option<Seq<char>>, from_env: Option<Seq<char>>)
    ensures
        non_empty_spec(from_file) is Some ==> key_choice(from_file, from_env) == non_empty_spec(from_file),
        non_empty_spec(from_file) is None ==> key_choice(from_file, from_env) == non_empty_spec(from_env),
{
}

/// A chosen key is never blank.
pub proof fn chosen_key_not_blank(from_file: Option<Seq<char>>, from_env: Option<Seq<char>>)
    ensures
        key_choice(from_file, from_env) matches Some(k) ==> !is_blank(k),
{
}

/// The model and the endpoint each come from the first place that sets
/// them: the project's `sabi.toml`, then `~/.sabi/config.toml`, then
/// `RUST_PI_MODEL` / `RUST_PI_BASE_URL`, then the defaults `gpt-5.5` and
/// `https://api.avemujica.moe/v1`.
pub proof fn settings_follow_precedence(s: ConfigSources)
    ensures
        project_model(s.project) matches Some(v) ==> chosen_model(s) == v,
        project_model(s.project) is None ==> (project_model(s.user) matches Some(v) ==> chosen_model(s) == v),
        project_model(s.project) is None && project_model(s.user) is None ==> (s.env_model matches Some(v) ==> chosen_model(s) == v@),
        project_model(s.project) is None && project_model(s.user) is None && s.env_model is None ==> chosen_model(s) == "gpt-5.5"@,
        project_base_url(s.project) matches Some(v) ==> chosen_base_url(s) == v,
        project_base_url(s.project) is None ==> (project_base_url(s.user) matches Some(v) ==> chosen_base_url(s) == v),
        project_base_url(s.project) is None && project_base_url(s.user) is None ==> (s.env_base_url matches Some(v) ==> chosen_base_url(s) == v@),
        project_base_url(s.project) is None && project_base_url(s.user) is None && s.env_base_url is None ==> chosen_base_url(s) == "https://api.avemujica.moe/v1"@,
{
}

} // verus!
