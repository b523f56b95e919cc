use workflow::cli::auto_init_allowed;
use workflow::cli::WfCommands;
use workflow::config::BranchsName;
use workflow::config::Config;
use workflow::config::JiraConfig;
use workflow::config::RepoConfig;

#[test]
fn test_config_default_is_unset() {
    let config = Config::default();
    assert!(config.is_not_set());
    assert!(!config.is_set());
}

#[test]
fn test_config_with_tracker_is_set() {
    let config = Config {
        jira: Some(JiraConfig {
            host: "https://example.atlassian.net".to_string(),
            user: "someone".to_string(),
            token: "SECRET-REDACTED".to_string(),
        }),
    };
    assert!(config.is_set());
    assert!(!config.is_not_set());
}

#[test]
fn test_repo_config_default_is_unset() {
    let config = RepoConfig::default();
    assert!(config.is_not_set());
    assert!(!config.is_set());
}

#[test]
fn test_repo_config_with_branch_is_set() {
    let config = RepoConfig { branches: Some(BranchsName { dev: "develop".to_string() }) };
    assert!(config.is_set());
    assert!(!config.is_not_set());
}

#[test]
fn test_auto_init_blocked_for_init_command() {
    assert!(!auto_init_allowed(&WfCommands::Init));
}

#[test]
fn test_auto_init_allowed_for_other_commands() {
    assert!(auto_init_allowed(&WfCommands::Push));
    assert!(auto_init_allowed(&WfCommands::Noop));
    assert!(auto_init_allowed(&WfCommands::Start { ticket_id: "ABC-1".to_string() }));
}
