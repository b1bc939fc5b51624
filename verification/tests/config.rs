use sabi_agent::config::{auth_path, exa_api_key, history_path, non_empty, non_empty_env, openai_api_key, sabi_dir,
    sessions_dir, user_config_path, AppConfig, AuthFile, ConfigFile, ConfigSources};

fn auth(openai: Option<&str>, exa: Option<&str>) -> Option<AuthFile> {
    Some(AuthFile { openai_api_key: openai.map(str::to_string), exa_api_key: exa.map(str::to_string) })
}

fn no_sources() -> ConfigSources {
    ConfigSources {
        auth: None,
        user: None,
        project: None,
        env_openai_api_key: None,
        env_exa_api_key: None,
        env_model: None,
        env_base_url: None,
    }
}

#[test]
fn api_keys_load_from_sabi_auth_before_environment() {
    let a = auth(Some("auth-openai"), Some("auth-exa"));
    assert_eq!(openai_api_key(&a, &Some("env-openai".to_string())).expect("openai key"), "auth-openai");
    assert_eq!(exa_api_key(&a, &Some("env-exa".to_string())).as_deref(), Some("auth-exa"));
}

#[test]
fn working_directory_dotenv_is_not_loaded() {
    assert!(openai_api_key(&None, &None).is_err());
}

#[test]
fn blank_keys_fall_through_to_environment() {
    let a = auth(Some("   "), None);
    assert_eq!(openai_api_key(&a, &Some("env".to_string())).unwrap(), "env");
    assert_eq!(exa_api_key(&a, &Some("\t".to_string())), None);
    assert_eq!(
        openai_api_key(&a, &Some(" ".to_string())).unwrap_err(),
        "OPENAI_API_KEY not found. Add it to ~/.sabi/auth.toml or set it in your environment"
    );
    assert_eq!(non_empty(Some(" x ")), Some(" x "));
    assert_eq!(non_empty(Some("  ")), None);
    assert_eq!(non_empty_env(Some("\n".to_string())), None);
}

#[test]
fn sabi_paths_live_under_home() {
    assert_eq!(sabi_dir(Some("/home/u")).as_deref(), Some("/home/u/.sabi"));
    assert_eq!(user_config_path(Some("/home/u")).as_deref(), Some("/home/u/.sabi/config.toml"));
    assert_eq!(auth_path(Some("/home/u/")).as_deref(), Some("/home/u/.sabi/auth.toml"));
    assert_eq!(sessions_dir(Some("/h")).as_deref(), Some("/h/.sabi/sessions"));
    assert_eq!(history_path(Some("/h")).as_deref(), Some("/h/.sabi/history"));
    assert_eq!(sessions_dir(None), None);
}

#[test]
fn settings_resolve_project_then_user_then_env_then_default() {
    let mut s = no_sources();
    s.env_openai_api_key = Some("k".to_string());
    let c = AppConfig::load_for_cwd("/w".to_string(), &s).unwrap();
    assert_eq!(c.model, "gpt-5.5");
    assert_eq!(c.base_url, "https://api.avemujica.moe/v1");
    assert_eq!(c.cwd, "/w");
    assert_eq!(c.api_key, "k");
    assert_eq!(c.exa_api_key, None);

    s.env_model = Some("env-model".to_string());
    s.user = Some(ConfigFile { model: Some("user-model".to_string()), base_url: Some("http://user".to_string()) });
    s.project = Some(ConfigFile { model: Some("project-model".to_string()), base_url: None });
    let c = AppConfig::load_for_cwd("/w".to_string(), &s).unwrap();
    assert_eq!(c.model, "project-model");
    assert_eq!(c.base_url, "http://user");

    s.project = None;
    s.user = None;
    let c = AppConfig::load_for_cwd("/w".to_string(), &s).unwrap();
    assert_eq!(c.model, "env-model");
}

#[test]
fn loading_without_a_key_fails() {
    let err = AppConfig::load_for_cwd("/w".to_string(), &no_sources()).unwrap_err();
    assert_eq!(err, "OPENAI_API_KEY not found. Add it to ~/.sabi/auth.toml or set it in your environment");
}
