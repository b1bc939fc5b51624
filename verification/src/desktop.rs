//! The state a desktop or other embedded frontend keeps for one workspace:
//! the conversation with its system prompt in front, the open session and
//! the skills, and the snapshots shown to the user.
//!
//! Creating sessions, reading files and calling the model are the caller's
//! part; it hands the results to the methods here.

use vstd::prelude::*;
use crate::config::{chosen_api_key, chosen_base_url, chosen_model, missing_openai_key_spec, AppConfig, ConfigSources};
use crate::llm::ModelConfig;
use crate::messages::{Message, MessageView, message_views};
use crate::session::{SessionStore, SessionSummary};
use crate::skills::{skill_views, Skill, SkillView};
use crate::system_prompt::{build, build_spec, BuildOptions, PromptDate};
use crate::text::copy_str;
use crate::tools::{builtin_tool_specs, builtin_tool_names, tool_names, ToolSpec};

verus! {

/// What a frontend needs to run the agent.
#[derive(Debug, Clone)]
pub struct DesktopOptions {
    pub cwd: String,
    pub model: ModelConfig,
}

impl DesktopOptions {
    /// Loads the options for `cwd` from the same sources as the CLI.
    pub fn load(cwd: String, sources: &ConfigSources) -> (r: Result<DesktopOptions, String>)
        ensures
            match r {
                Ok(o) => {
                    &&& o.cwd@ == cwd@
                    &&& chosen_api_key(*sources) == Some(o.model.api_key@)
                    &&& o.model.model@ == chosen_model(*sources)
                    &&& o.model.base_url@ == chosen_base_url(*sources)
                },
                Err(e) => chosen_api_key(*sources) is None && e@ == missing_openai_key_spec(),
            },
    {
        match AppConfig::load_for_cwd(cwd, sources) {
            Ok(config) => Ok(DesktopOptions::from_app_config(config)),
            Err(e) => Err(e),
        }
    }

    /// The options of a loaded configuration.
    pub fn from_app_config(config: AppConfig) -> (r: DesktopOptions)
        ensures
            r.cwd == config.cwd,
            r.model.model == config.model,
            r.model.base_url == config.base_url,
            r.model.api_key == config.api_key,
    {
        DesktopOptions {
            cwd: config.cwd,
            model: ModelConfig { model: config.model, base_url: config.base_url, api_key: config.api_key },
        }
    }
}

/// A compact session descriptor for session lists and headers. Times are
/// Unix nanoseconds (UTC).
#[derive(Debug, Clone, PartialEq, Eq)]
pub struct DesktopSessionInfo {
    pub id: String,
    pub path: String,
    pub cwd: String,
    pub message_count: usize,
    pub created_at: i128,
    pub modified_at: i128,
}

/// Snapshot of the frontend state.
#[derive(Debug, Clone, PartialEq, Eq)]
pub struct DesktopState {
    pub session: DesktopSessionInfo,
    pub skills: Vec<DesktopSkillInfo>,
    pub messages_len: usize,
}

/// Skill metadata safe to show in a list.
#[derive(Debug, Clone, PartialEq, Eq)]
pub struct DesktopSkillInfo {
    pub name: String,
    pub description: String,
    pub file_path: String,
}

/// The descriptor of a summarized session: its id, file, directory, count of
/// messages and times.
impl From<SessionSummary> for DesktopSessionInfo {
    fn from(summary: SessionSummary) -> (r: DesktopSessionInfo) {
        DesktopSessionInfo {
            id: summary.id,
            path: summary.path,
            cwd: summary.header.cwd,
            message_count: summary.message_count,
            created_at: summary.header.created_at,
            modified_at: summary.modified_at,
        }
    }
}

impl vstd::std_specs::convert::FromSpecImpl<SessionSummary> for DesktopSessionInfo {
    open spec fn obeys_from_spec() -> bool {
        true
    }

    open spec fn from_spec(summary: SessionSummary) -> DesktopSessionInfo {
        DesktopSessionInfo {
            id: summary.id,
            path: summary.path,
            cwd: summary.header.cwd,
            message_count: summary.message_count,
            created_at: summary.header.created_at,
            modified_at: summary.modified_at,
        }
    }
}

pub open spec fn no_header_text(path: Seq<char>) -> Seq<char> {
    "session "@ + path + " has no header"@
}

/// The descriptor of the open session from its summary, with `cwd` as the
/// working directory; a session file without a header is an error.
pub fn session_info_from_summary(summary: Option<SessionSummary>, path: &str, cwd: &str) -> (r: Result<DesktopSessionInfo, String>)
    ensures
        match r {
            Ok(info) => summary matches Some(s) && info.id@ == s.id@ && info.path@ == s.path@
                && info.cwd@ == cwd@ && info.message_count == s.message_count
                && info.created_at == s.header.created_at && info.modified_at == s.modified_at,
            Err(e) => summary is None && e@ == no_header_text(path@),
        },
{
    match summary {
        Some(s) => {
            let mut info = DesktopSessionInfo::from(s);
            info.cwd = copy_str(cwd);
            Ok(info)
        },
        None => {
            let mut e = copy_str("session ");
            e.push_str(path);
            e.push_str(" has no header");
            Err(e)
        },
    }
}

/// The system prompt for `cwd` with the built-in tools and `skills`.
pub fn build_system_prompt(cwd: &str, skills: &[Skill], date: PromptDate, agents_md: Option<&str>) -> (r: String)
    ensures
        exists|tools: Seq<ToolSpec>| tool_names(tools) == builtin_tool_names()
            && r@ == build_spec(cwd@, tools, skill_views(skills@), date,
                match agents_md { Some(a) => Some(a@), None => None }),
{
    let tools = builtin_tool_specs();
    let r = build(BuildOptions { cwd, tools: tools.as_slice(), skills, date, agents_md });
    assert(tool_names(tools@) == builtin_tool_names());
    r
}

/// The conversation with the system prompt `prompt` in front: a leading
/// system message is replaced, otherwise one is put before the rest.
pub open spec fn inject_spec(m: Seq<MessageView>, prompt: Seq<char>) -> Seq<MessageView> {
    if m.len() > 0 && m[0] is System {
        m.update(0, MessageView::System { content: prompt })
    } else {
        seq![MessageView::System { content: prompt }] + m
    }
}

/// Puts the system prompt in front of the conversation.
pub fn inject_system_prompt(messages: &mut Vec<Message>, system_prompt: &str)
    ensures
        message_views(final(messages)@) == inject_spec(message_views(old(messages)@), system_prompt@),
{
    let ghost before = message_views(messages@);
    let first_is_system = messages.len() > 0 && messages[0].is_system();
    let m = Message::system(copy_str(system_prompt));
    if first_is_system {
        messages.set(0, m);
        assert(message_views(messages@) =~= before.update(0, MessageView::System { content: system_prompt@ }));
    } else {
        messages.insert(0, m);
        assert(message_views(messages@) =~= seq![MessageView::System { content: system_prompt@ }] + before);
    }
}

/// The number of messages that are not system messages.
pub open spec fn non_system_count(m: Seq<MessageView>) -> nat
    decreases m.len(),
{
    if m.len() == 0 {
        0
    } else {
        (if m[0] is System { 0nat } else { 1nat }) + non_system_count(m.drop_first())
    }
}

pub open spec fn skill_info_spec(s: SkillView) -> (Seq<char>, Seq<char>, Seq<char>) {
    (s.name, s.description, s.file_path)
}

pub open spec fn skill_info_views(v: Seq<DesktopSkillInfo>) -> Seq<(Seq<char>, Seq<char>, Seq<char>)> {
    v.map_values(|x: DesktopSkillInfo| (x.name@, x.description@, x.file_path@))
}

/// The engine state of one frontend: the conversation always holds the
/// system prompt in front once built.
pub struct DesktopAgent {
    cwd: String,
    model: ModelConfig,
    system_prompt: String,
    skills: Vec<Skill>,
    messages: Vec<Message>,
    session: SessionStore,
    session_info: DesktopSessionInfo,
}

impl DesktopAgent {
    pub closed spec fn cwd_view(&self) -> Seq<char> {
        self.cwd@
    }

    pub closed spec fn prompt_view(&self) -> Seq<char> {
        self.system_prompt@
    }

    pub closed spec fn skills_view(&self) -> Seq<SkillView> {
        skill_views(self.skills@)
    }

    pub closed spec fn messages_view(&self) -> Seq<MessageView> {
        message_views(self.messages@)
    }

    pub closed spec fn session_view(&self) -> (Seq<char>, Seq<char>) {
        (self.session.id@, self.session.path@)
    }

    pub closed spec fn stored_info(&self) -> DesktopSessionInfo {
        self.session_info
    }

    pub closed spec fn model_config(&self) -> ModelConfig {
        self.model
    }

    /// The conversation starts with the current system prompt.
    pub open spec fn prompt_leads(&self) -> bool {
        &&& self.messages_view().len() > 0
        &&& self.messages_view()[0] == (MessageView::System { content: self.prompt_view() })
    }

    /// An agent for `options` with the conversation `messages` (empty for a
    /// new session, the loaded ones for a resumed one), the system prompt put
    /// in front.
    pub fn assemble(
        options: DesktopOptions,
        system_prompt: String,
        skills: Vec<Skill>,
        messages: Vec<Message>,
        session: SessionStore,
        session_info: DesktopSessionInfo,
    ) -> (r: DesktopAgent)
        ensures
            r.cwd_view() == options.cwd@,
            r.prompt_view() == system_prompt@,
            r.skills_view() == skill_views(skills@),
            r.messages_view() == inject_spec(message_views(messages@), system_prompt@),
            r.session_view() == (session.id@, session.path@),
            r.stored_info() == session_info,
            r.model_config() == options.model,
            r.prompt_leads(),
    {
        let mut messages = messages;
        inject_system_prompt(&mut messages, system_prompt.as_str());
        DesktopAgent {
            cwd: options.cwd,
            model: options.model,
            system_prompt,
            skills,
            messages,
            session,
            session_info,
        }
    }

    /// Clears the in-memory conversation and keeps the session file.
    pub fn clear_conversation(&mut self)
        ensures
            final(self).messages_view() == seq![MessageView::System { content: old(self).prompt_view() }],
            final(self).prompt_view() == old(self).prompt_view(),
            final(self).skills_view() == old(self).skills_view(),
            final(self).session_view() == old(self).session_view(),
            final(self).stored_info() == old(self).stored_info(),
            final(self).cwd_view() == old(self).cwd_view(),
            final(self).prompt_leads(),
    {
        self.messages = Vec::new();
        assert(message_views(self.messages@) =~= Seq::<MessageView>::empty());
        inject_system_prompt(&mut self.messages, self.system_prompt.as_str());
        assert(message_views(self.messages@) =~= seq![MessageView::System { content: self.system_prompt@ }]);
    }

    /// Continues in `session`, a newly created file; the conversation is
    /// cleared first, as for a new session.
    pub fn switch_to_new_session(&mut self, session: SessionStore, session_info: DesktopSessionInfo)
        ensures
            final(self).messages_view() == seq![MessageView::System { content: old(self).prompt_view() }],
            final(self).session_view() == (session.id@, session.path@),
            final(self).stored_info() == session_info,
            final(self).prompt_view() == old(self).prompt_view(),
            final(self).skills_view() == old(self).skills_view(),
            final(self).cwd_view() == old(self).cwd_view(),
            final(self).prompt_leads(),
    {
        self.clear_conversation();
        self.session = session;
        self.session_info = session_info;
    }

    /// Continues the previous session `session` with its loaded `messages`.
    pub fn switch_to_loaded_session(&mut self, session: SessionStore, messages: Vec<Message>, session_info: DesktopSessionInfo)
        ensures
            final(self).messages_view() == inject_spec(message_views(messages@), old(self).prompt_view()),
            final(self).session_view() == (session.id@, session.path@),
            final(self).stored_info() == session_info,
            final(self).prompt_view() == old(self).prompt_view(),
            final(self).skills_view() == old(self).skills_view(),
            final(self).cwd_view() == old(self).cwd_view(),
            final(self).prompt_leads(),
    {
        let mut messages = messages;
        inject_system_prompt(&mut messages, self.system_prompt.as_str());
        self.messages = messages;
        self.session = session;
        self.session_info = session_info;
    }

    /// Takes newly discovered skills and the prompt built from them.
    pub fn refresh_skills(&mut self, skills: Vec<Skill>, system_prompt: String)
        ensures
            final(self).skills_view() == skill_views(skills@),
            final(self).prompt_view() == system_prompt@,
            final(self).messages_view() == inject_spec(old(self).messages_view(), system_prompt@),
            final(self).session_view() == old(self).session_view(),
            final(self).stored_info() == old(self).stored_info(),
            final(self).cwd_view() == old(self).cwd_view(),
            final(self).prompt_leads(),
    {
        self.skills = skills;
        self.system_prompt = system_prompt;
        inject_system_prompt(&mut self.messages, self.system_prompt.as_str());
    }

    /// Appends a message of the running turn to the conversation.
    pub fn record_message(&mut self, message: Message)
        ensures
            final(self).messages_view() == old(self).messages_view().push(message@),
            final(self).prompt_view() == old(self).prompt_view(),
            final(self).skills_view() == old(self).skills_view(),
            final(self).session_view() == old(self).session_view(),
            final(self).stored_info() == old(self).stored_info(),
            final(self).cwd_view() == old(self).cwd_view(),
            old(self).prompt_leads() ==> final(self).prompt_leads(),
    {
        let ghost before = message_views(self.messages@);
        self.messages.push(message);
        assert(message_views(self.messages@) =~= before.push(message@));
    }

    /// Takes the descriptor of the session re-read after a turn.
    pub fn set_session_info(&mut self, session_info: DesktopSessionInfo)
        ensures
            final(self).stored_info() == session_info,
            final(self).messages_view() == old(self).messages_view(),
            final(self).prompt_view() == old(self).prompt_view(),
            final(self).skills_view() == old(self).skills_view(),
            final(self).session_view() == old(self).session_view(),
            final(self).cwd_view() == old(self).cwd_view(),
            old(self).prompt_leads() ==> final(self).prompt_leads(),
    {
        self.session_info = session_info;
    }

    /// The descriptor of the open session, counting the conversation's
    /// messages other than system messages.
    pub fn session_info(&self) -> (r: DesktopSessionInfo)
        ensures
            r.message_count == non_system_count(self.messages_view()),
            r.id@ == self.stored_info().id@,
            r.path@ == self.stored_info().path@,
            r.cwd@ == self.stored_info().cwd@,
            r.created_at == self.stored_info().created_at,
            r.modified_at == self.stored_info().modified_at,
    {
        let ghost mv = message_views(self.messages@);
        let mut count: usize = 0;
        let n: usize = self.messages.len();
        let mut i: usize = n;
        assert(mv.skip(i as int) =~= Seq::<MessageView>::empty());
        while i > 0
            invariant
                n == self.messages@.len(),
                i <= self.messages@.len(),
                mv == message_views(self.messages@),
                count == non_system_count(mv.skip(i as int)),
                count <= self.messages@.len() - i,
            decreases i,
        {
            i -= 1;
            assert(mv.skip(i as int).drop_first() =~= mv.skip(i + 1));
            assert(mv.skip(i as int)[0] == self.messages@[i as int]@);
            if !self.messages[i].is_system() {
                count += 1;
            }
        }
        assert(mv.skip(0) =~= mv);
        DesktopSessionInfo {
            id: self.session_info.id.clone(),
            path: self.session_info.path.clone(),
            cwd: self.session_info.cwd.clone(),
            message_count: count,
            created_at: self.session_info.created_at,
            modified_at: self.session_info.modified_at,
        }
    }

    /// The skills in the order they were discovered.
    pub fn skill_info(&self) -> (r: Vec<DesktopSkillInfo>)
        ensures
            skill_info_views(r@) == self.skills_view().map_values(|s: SkillView| skill_info_spec(s)),
    {
        let mut r: Vec<DesktopSkillInfo> = Vec::new();
        let mut i: usize = 0;
        while i < self.skills.len()
            invariant
                i <= self.skills@.len(),
                skill_info_views(r@) == skill_views(self.skills@.take(i as int)).map_values(|s: SkillView| skill_info_spec(s)),
            decreases self.skills@.len() - i,
        {
            let s = &self.skills[i];
            let info = DesktopSkillInfo {
                name: s.name.clone(),
                description: s.description.clone(),
                file_path: s.file_path.clone(),
            };
            let ghost before = r@;
            r.push(info);
            proof {
                assert(skill_info_views(r@) =~= skill_info_views(before).push((info.name@, info.description@, info.file_path@)));
                assert(self.skills@.take(i + 1) =~= self.skills@.take(i as int).push(self.skills@[i as int]));
                assert(skill_views(self.skills@.take(i + 1)).map_values(|s: SkillView| skill_info_spec(s)) =~=
                    skill_views(self.skills@.take(i as int)).map_values(|s: SkillView| skill_info_spec(s)).push(skill_info_spec(s@)));
            }
            i += 1;
        }
        assert(self.skills@.take(self.skills@.len() as int) =~= self.skills@);
        r
    }

    /// A snapshot of the session, the skills and the conversation's length.
    pub fn state(&self) -> (r: DesktopState)
        ensures
            r.session.message_count == non_system_count(self.messages_view()),
            r.session.id@ == self.stored_info().id@,
            r.session.path@ == self.stored_info().path@,
            r.session.cwd@ == self.stored_info().cwd@,
            r.session.created_at == self.stored_info().created_at,
            r.session.modified_at == self.stored_info().modified_at,
            skill_info_views(r.skills@) == self.skills_view().map_values(|s: SkillView| skill_info_spec(s)),
            r.messages_len == self.messages_view().len(),
    {
        DesktopState { session: self.session_info(), skills: self.skill_info(), messages_len: self.messages.len() }
    }

    /// The conversation.
    pub fn messages(&self) -> (r: &[Message])
        ensures
            message_views(r@) == self.messages_view(),
    {
        self.messages.as_slice()
    }

    /// The open session.
    pub fn session(&self) -> (r: &SessionStore)
        ensures
            (r.id@, r.path@) == self.session_view(),
    {
        &self.session
    }

    /// The working directory.
    pub fn cwd(&self) -> (r: &str)
        ensures
            r@ == self.cwd_view(),
    {
        self.cwd.as_str()
    }

    /// The model configuration.
    pub fn model(&self) -> (r: &ModelConfig)
        ensures
            *r == self.model_config(),
    {
        &self.model
    }
}

/// Whatever the conversation held, the system prompt ends up in front.
pub proof fn injected_prompt_leads(m: Seq<MessageView>, prompt: Seq<char>)
    ensures
        inject_spec(m, prompt).len() > 0,
        inject_spec(m, prompt)[0] == (MessageView::System { content: prompt }),
{
}

/// Injecting the same prompt again changes nothing.
pub proof fn inject_idempotent(m: Seq<MessageView>, prompt: Seq<char>)
    ensures
        inject_spec(inject_spec(m, prompt), prompt) == inject_spec(m, prompt),
{
    let once = inject_spec(m, prompt);
    assert(once[0] is System);
    assert(once.update(0, MessageView::System { content: prompt }) =~= once);
}

/// Injecting a prompt keeps every message after the leading system message,
/// so the count of non-system messages a session reports does not change.
pub proof fn inject_keeps_conversation(m: Seq<MessageView>, prompt: Seq<char>)
    ensures
        non_system_count(inject_spec(m, prompt)) == non_system_count(m),
        inject_spec(m, prompt).drop_first() == (if m.len() > 0 && m[0] is System { m.drop_first() } else { m }),
{
    let r = inject_spec(m, prompt);
    if m.len() > 0 && m[0] is System {
        assert(r.drop_first() =~= m.drop_first());
    } else {
        assert(r.drop_first() =~= m);
    }
}

} // verus!
