use railgun::GitHubEvent;
use railgun::WebhookError;

#[test]
fn test_classify_known_events() {
    let pr = vec!["pull_request".to_string()];
    assert_eq!(GitHubEvent::from_request(&pr), Ok(GitHubEvent::PullRequest));

    let ic = vec!["issue_comment".to_string()];
    assert_eq!(GitHubEvent::from_request(&ic), Ok(GitHubEvent::IssueComment));

    let st = vec!["status".to_string()];
    assert_eq!(GitHubEvent::from_request(&st), Ok(GitHubEvent::Status));
}

#[test]
fn test_classify_rejects_unknown_event() {
    let values = vec!["push".to_string()];
    assert_eq!(
        GitHubEvent::from_request(&values),
        Err(WebhookError::Classification)
    );
}

#[test]
fn test_classify_is_case_sensitive() {
    let values = vec!["Pull_Request".to_string()];
    assert_eq!(
        GitHubEvent::from_request(&values),
        Err(WebhookError::Classification)
    );
}

#[test]
fn test_classify_rejects_missing_header() {
    let values: Vec<String> = vec![];
    let e = GitHubEvent::from_request(&values).unwrap_err();
    assert_eq!(e, WebhookError::Classification);
    assert_eq!(e.status_class(), 400);
}

#[test]
fn test_classify_rejects_repeated_header() {
    let values = vec!["pull_request".to_string(), "status".to_string()];
    assert_eq!(
        GitHubEvent::from_request(&values),
        Err(WebhookError::Classification)
    );
}
