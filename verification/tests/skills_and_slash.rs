use sabi_agent::skills::{builtin_init_skill, builtin_review_skill, collect_skills, format_available, format_invocation,
    frontmatter_value, parse_skill, skill_roots, split_frontmatter, Skill, SkillError};
use sabi_agent::slash::{parse, SlashCommand};

fn skill(name: &str, description: &str, content: &str, disabled: bool) -> Skill {
    Skill {
        name: name.to_string(),
        description: description.to_string(),
        file_path: format!("/skills/{name}/SKILL.md"),
        content: content.to_string(),
        disable_model_invocation: disabled,
    }
}

#[test]
fn slash_commands_parse() {
    assert_eq!(parse("hello"), None);
    assert_eq!(parse("  /help  "), Some(SlashCommand::Help));
    assert_eq!(parse("/exit"), Some(SlashCommand::Quit));
    assert_eq!(parse("/quit"), Some(SlashCommand::Quit));
    assert_eq!(parse("/new"), Some(SlashCommand::New));
    assert_eq!(parse("/yolo"), Some(SlashCommand::Fiwb));
    assert_eq!(parse("/fiwb"), Some(SlashCommand::Fiwb));
    assert_eq!(parse("/reload"), Some(SlashCommand::Reload));
    assert_eq!(
        parse("/skill:review focus on tests "),
        Some(SlashCommand::Skill { name: "review".to_string(), extra: "focus on tests".to_string() })
    );
    assert_eq!(parse("/skill:init"), Some(SlashCommand::Skill { name: "init".to_string(), extra: String::new() }));
    assert_eq!(parse("/nope"), Some(SlashCommand::Unknown("/nope".to_string())));
}

#[test]
fn skill_files_parse_with_frontmatter() {
    let text = "---\nname: example\ndescription: \"Explain things\"\ndisable-model-invocation: true\n---\n\nBody here.\n";
    let s = parse_skill("/x/SKILL.md", text).unwrap();
    assert_eq!(s.name, "example");
    assert_eq!(s.description, "Explain things");
    assert_eq!(s.file_path, "/x/SKILL.md");
    assert_eq!(s.content, "Body here.");
    assert!(s.disable_model_invocation);
    assert_eq!(parse_skill("p", "no frontmatter").unwrap_err(), SkillError::MissingFrontmatter);
    assert_eq!(parse_skill("p", "---\ndescription: d\n---\nb").unwrap_err(), SkillError::MissingName);
    assert_eq!(parse_skill("p", "---\nname: n\n---\nb").unwrap_err(), SkillError::MissingDescription);
    assert_eq!(SkillError::MissingName.message(), "missing name");
}

#[test]
fn frontmatter_splits_and_reads_values() {
    let (fm, body) = split_frontmatter("---\r\nname: a\r\n---\r\nrest").unwrap();
    assert_eq!(fm, "name: a");
    assert_eq!(body, "rest");
    assert_eq!(frontmatter_value("name: a\nname: b", "name"), Some("a".to_string()));
    assert_eq!(frontmatter_value("title: x", "name"), None);
}

#[test]
fn invocation_fills_arguments_or_appends_them() {
    let s = skill("t", "d", "Do $ARGUMENTS now.", false);
    assert_eq!(format_invocation(&s, " the thing "), "Use the following skill instructions.\n\n# Skill: t\n\nDescription: d\n\nDo the thing now.");
    let s = skill("t", "d", "Body.", false);
    assert_eq!(
        format_invocation(&s, "extra"),
        "Use the following skill instructions.\n\n# Skill: t\n\nDescription: d\n\nBody.\n\nAdditional user instructions:\nextra"
    );
    assert_eq!(format_invocation(&s, "   "), "Use the following skill instructions.\n\n# Skill: t\n\nDescription: d\n\nBody.");
}

#[test]
fn available_skills_skip_disabled_ones() {
    let skills = vec![skill("a", "first", "", false), skill("b", "second", "", true)];
    assert_eq!(
        format_available(&skills),
        "Available skills. Invoke one by asking the user to run `/skill:name` when it is relevant:\n- a: first\n"
    );
    assert_eq!(format_available(&[skill("b", "x", "", true)]), "");
    assert_eq!(format_available(&[]), "");
}

#[test]
fn collected_skills_include_builtins_sorted_and_unique() {
    let found = vec![skill("zeta", "z", "", false), skill("init", "shadowed", "", false), skill("alpha", "a", "", false)];
    let all = collect_skills(found);
    let names: Vec<&str> = all.iter().map(|s| s.name.as_str()).collect();
    assert_eq!(names, vec!["alpha", "init", "review", "zeta"]);
    let init = all.iter().find(|s| s.name == "init").unwrap();
    assert_eq!(init.file_path, "<built-in>/init");
    assert_eq!(builtin_init_skill().name, "init");
    assert_eq!(builtin_review_skill().description, "Review code changes and provide actionable feedback.");
}

#[test]
fn skill_roots_are_project_then_home() {
    assert_eq!(skill_roots("/w", Some("/home/u")), vec!["/w/.sabi/skills".to_string(), "/home/u/.sabi/skills".to_string()]);
    assert_eq!(skill_roots("/w", None), vec!["/w/.sabi/skills".to_string()]);
}
