use workflow::config::JiraConfig;
use workflow::jira::issue_lookup_outcome;
use workflow::jira::JiraCredentials;
use workflow::jira::JiraError;
use workflow::jira::JiraServer;
use workflow::jira::JiraToken;
use workflow::jira::JiraUser;

fn config(host: &str) -> JiraConfig {
    JiraConfig {
        host: host.to_string(),
        user: "someone".to_string(),
        token: "SECRET-REDACTED".to_string(),
    }
}

#[test]
fn test_server_from_config_accepts_url_host() {
    let server = JiraServer::from_config(&config("https://example.atlassian.net"));
    assert!(server.is_ok());
}

#[test]
fn test_server_from_config_rejects_bad_host() {
    let server = JiraServer::from_config(&config("no scheme here"));
    assert!(matches!(server, Err(JiraError::InvalidUrl(_))));
}

#[test]
fn test_server_keeps_credentials() {
    let server = JiraServer::from_config(&config("https://example.atlassian.net")).unwrap();
    assert_eq!(server.credentials().user().as_str(), "someone");
    assert_eq!(server.credentials().token().as_str(), "SECRET-REDACTED");
}

#[test]
fn test_issue_url_joins_endpoint_and_key() {
    let server = JiraServer::from_config(&config("https://example.atlassian.net")).unwrap();
    let url = server.issue_url("ABC-1").unwrap();
    assert_eq!(url.as_str(), "https://example.atlassian.net/rest/api/2/issue/ABC-1");
}

#[test]
fn test_issue_url_replaces_host_path() {
    let server = JiraServer::from_config(&config("https://example.atlassian.net/some/where")).unwrap();
    let url = server.issue_url("ABC-1").unwrap();
    assert_eq!(url.as_str(), "https://example.atlassian.net/rest/api/2/issue/ABC-1");
}

#[test]
fn test_issue_lookup_not_found_on_404() {
    match issue_lookup_outcome(404, "ABC-9") {
        Err(JiraError::IssueNotFound(key)) => assert_eq!(key, "ABC-9"),
        _ => panic!("a missing issue must be reported as not found"),
    }
}

#[test]
fn test_issue_lookup_passes_other_statuses() {
    assert!(issue_lookup_outcome(200, "ABC-9").is_ok());
    assert!(issue_lookup_outcome(500, "ABC-9").is_ok());
}

#[test]
fn test_credentials_hold_user_and_token() {
    let credentials = JiraCredentials::new(
        JiraUser::new("me".to_string()),
        JiraToken::new("SECRET-REDACTED".to_string()),
    );
    assert_eq!(credentials.user().as_str(), "me");
    assert_eq!(credentials.token().as_str(), "SECRET-REDACTED");
}

#[test]
fn test_issue_url_fails_on_cannot_be_a_base_host() {
    let server = JiraServer::from_config(&config("mailto:someone@example.com")).unwrap();
    assert!(matches!(server.issue_url("ABC-1"), Err(JiraError::InvalidUrl(_))));
}
