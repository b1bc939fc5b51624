use sabi_agent::onboarding::{config_file_text, declines, keys_to_store, onboarding_presets, value_or_default};
use sabi_agent::skills::Skill;
use sabi_agent::system_prompt::{build, date_text, BuildOptions, PromptDate};
use sabi_agent::tools::builtin_tool_specs;

#[test]
fn dates_are_zero_padded() {
    assert_eq!(date_text(PromptDate { year: 2025, month: 3, day: 7 }), "2025-03-07");
    assert_eq!(date_text(PromptDate { year: 987, month: 12, day: 31 }), "0987-12-31");
}

#[test]
fn prompt_lists_tools_guidelines_context_and_skills() {
    let tools = builtin_tool_specs();
    let skills = vec![Skill {
        name: "s".to_string(),
        description: "does s".to_string(),
        file_path: "p".to_string(),
        content: String::new(),
        disable_model_invocation: false,
    }];
    let prompt = build(BuildOptions {
        cwd: "C:\\work\\proj",
        tools: &tools,
        skills: &skills,
        date: PromptDate { year: 2025, month: 1, day: 2 },
        agents_md: Some("\n  Be careful.  \n"),
    });
    assert!(prompt.starts_with("You are Sabi, an expert coding assistant."));
    assert!(prompt.contains("\n\nAvailable tools:\n- read: Read a UTF-8 text file."));
    assert!(prompt.contains("- Prefer grep/find/ls tools over bash for file exploration (faster, respects .gitignore)\n- Be concise in your responses\n- Show file paths clearly when working with files"));
    assert!(prompt.contains("<project_instructions path=\"AGENTS.md\">\nBe careful.\n</project_instructions>\n</project_context>"));
    assert!(prompt.contains("\n\nAvailable skills. Invoke one by asking the user to run `/skill:name` when it is relevant:\n- s: does s\n"));
    assert!(prompt.ends_with("\n\nCurrent date: 2025-01-02\nCurrent working directory: C:/work/proj"));
}

#[test]
fn prompt_without_tools_or_context() {
    let prompt = build(BuildOptions { cwd: "/w", tools: &[], skills: &[], date: PromptDate { year: 2024, month: 2, day: 29 }, agents_md: None });
    assert_eq!(
        prompt,
        "You are Sabi, an expert coding assistant. You help users by reading files, executing commands, editing code, and writing new files.\n\nAvailable tools:\n(none)\n\nGuidelines:\n- Be concise in your responses\n- Show file paths clearly when working with files\n\nCurrent date: 2024-02-29\nCurrent working directory: /w"
    );
}

#[test]
fn onboarding_answers() {
    assert!(declines(" n\n"));
    assert!(declines("N"));
    assert!(!declines(""));
    assert!(!declines("no"));
    assert_eq!(value_or_default("  \n", "gpt-5.5"), "gpt-5.5");
    assert_eq!(value_or_default(" my-model \n", "gpt-5.5"), "my-model");
    let c = onboarding_presets(false, "\n", "http://x\n");
    assert_eq!(c.model.as_deref(), Some("gpt-5.5"));
    assert_eq!(c.base_url.as_deref(), Some("http://x"));
    let c = onboarding_presets(true, "ignored", "ignored");
    assert!(c.model.is_none() && c.base_url.is_none());
    assert!(config_file_text("model = \"m\"\n").starts_with("# Sabi Agent user-level presets\n"));
    assert!(keys_to_store("  \n", "exa").is_none());
    let keys = keys_to_store(" sk-1 \n", "\n").unwrap();
    assert_eq!(keys.openai_api_key.as_deref(), Some("sk-1"));
    assert_eq!(keys.exa_api_key, None);
}
