use railgun::extract;
use railgun::hmac_hex;
use railgun::i64_to_decimal;
use railgun::index;
use railgun::pull_request_event;
use railgun::read_fields;
use railgun::receive;
use railgun::AuthFailure;
use railgun::PullRequestParams;
use railgun::PullRequestStore;
use railgun::ValidationFailure;
use railgun::WebhookError;

const SECRET: &str = "SUPERS3CR3T";

fn signed(body: &str) -> Vec<String> {
    vec![format!("sha1={}", hmac_hex(body, SECRET))]
}

#[test]
fn test_pull_request_event_with_missing_data_returns_error() {
    let mut store = PullRequestStore::new();
    let data = "{\"action\": \"opened\", \"repository\": \"octcat/spoon-knife\", \"head\": {\"sha\": \"abcdef1234567890\"}}";

    let result = pull_request_event(data, &mut store);

    match result {
        Err(e) => assert_eq!(e.message(), "No number"),
        _ => unreachable!(),
    }
}

#[test]
fn test_pull_request_event_creates_record() {
    let mut store = PullRequestStore::new();
    let data = "{\"action\": \"opened\", \"repository\": \"octocat/spoon-knife\", \"number\": 42, \"head\": {\"sha\": \"abcdef1234567890\"}}";

    let _ = pull_request_event(data, &mut store).unwrap();

    let count = store.count_by_repository("octocat/spoon-knife");

    assert_eq!(1, count);
}

#[test]
fn test_extract_missing_number() {
    let body = "{\"action\":\"opened\",\"repository\":\"octocat/spoon-knife\",\"head\":{\"sha\":\"abcdef1234567890\"}}";
    let fields = read_fields(body).unwrap();
    let e = extract(&fields).unwrap_err();
    assert_eq!(e, WebhookError::Validation(ValidationFailure::NoNumber));
    assert_eq!(e.message(), "No number");
}

#[test]
fn test_extract_complete_payload() {
    let body = "{\"action\":\"opened\",\"repository\":\"octocat/spoon-knife\",\"number\":42,\"head\":{\"sha\":\"abcdef1234567890\"}}";
    let fields = read_fields(body).unwrap();
    let params = extract(&fields).unwrap();
    assert_eq!(
        params,
        PullRequestParams {
            repository: "octocat/spoon-knife".to_string(),
            number: "42".to_string(),
            head_sha: "abcdef1234567890".to_string(),
            status: "opened".to_string(),
        }
    );
}

#[test]
fn test_extract_missing_repository() {
    let body = "{\"action\":\"opened\",\"number\":42,\"head\":{\"sha\":\"abcdef1234567890\"}}";
    let fields = read_fields(body).unwrap();
    let e = extract(&fields).unwrap_err();
    assert_eq!(e, WebhookError::Validation(ValidationFailure::NoRepository));
    assert_eq!(e.message(), "No repository");
}

#[test]
fn test_extract_missing_sha() {
    let body = "{\"action\":\"opened\",\"repository\":\"octocat/spoon-knife\",\"number\":42}";
    let fields = read_fields(body).unwrap();
    let e = extract(&fields).unwrap_err();
    assert_eq!(e, WebhookError::Validation(ValidationFailure::NoSha));
    assert_eq!(e.message(), "No SHA");
}

#[test]
fn test_extract_mistyped_number() {
    let body = "{\"action\":\"opened\",\"repository\":\"octocat/spoon-knife\",\"number\":\"42\",\"head\":{\"sha\":\"abcdef1234567890\"}}";
    let fields = read_fields(body).unwrap();
    let e = extract(&fields).unwrap_err();
    assert_eq!(e, WebhookError::Validation(ValidationFailure::NoNumber));
}

#[test]
fn test_extract_negative_number() {
    let body = "{\"action\":\"opened\",\"repository\":\"octocat/spoon-knife\",\"number\":-7,\"head\":{\"sha\":\"abcdef1234567890\"}}";
    let fields = read_fields(body).unwrap();
    let params = extract(&fields).unwrap();
    assert_eq!(params.number, "-7");
}

#[test]
fn test_extract_unhandled_action() {
    let body = "{\"action\":\"closed\",\"repository\":\"octocat/spoon-knife\",\"number\":42,\"head\":{\"sha\":\"abcdef1234567890\"}}";
    let fields = read_fields(body).unwrap();
    let e = extract(&fields).unwrap_err();
    assert_eq!(e, WebhookError::UnsupportedAction);
    assert_eq!(e.message(), "Can't handle action");
}

#[test]
fn test_pull_request_event_invalid_json() {
    let mut store = PullRequestStore::new();
    let e = pull_request_event("this is not json", &mut store).unwrap_err();
    assert_eq!(e, WebhookError::Validation(ValidationFailure::InvalidJson));
    assert_eq!(e.message(), "Could not decode request body");
    assert_eq!(store.len(), 0);
}

#[test]
fn test_receive_creates_one_record() {
    let body = "{\"action\":\"opened\",\"repository\":\"octocat/spoon-knife\",\"number\":42,\"head\":{\"sha\":\"abcdef1234567890\"}}";
    let secret = SECRET.to_string();
    let mut store = PullRequestStore::new();
    let events = vec!["pull_request".to_string()];

    let record = receive(
        &events,
        &signed(body),
        body.to_string(),
        Some(&secret),
        &mut store,
    )
    .unwrap();

    assert_eq!(record.id, 1);
    assert_eq!(record.repository, "octocat/spoon-knife");
    assert_eq!(record.number, "42");
    assert_eq!(record.head_sha, "abcdef1234567890");
    assert_eq!(record.status, "opened");
    assert_eq!(store.count_by_repository("octocat/spoon-knife"), 1);
}

#[test]
fn test_receive_twice_creates_two_records() {
    let body = "{\"action\":\"opened\",\"repository\":\"octocat/spoon-knife\",\"number\":42,\"head\":{\"sha\":\"abcdef1234567890\"}}";
    let secret = SECRET.to_string();
    let mut store = PullRequestStore::new();
    let events = vec!["pull_request".to_string()];

    let first = receive(
        &events,
        &signed(body),
        body.to_string(),
        Some(&secret),
        &mut store,
    )
    .unwrap();
    let second = receive(
        &events,
        &signed(body),
        body.to_string(),
        Some(&secret),
        &mut store,
    )
    .unwrap();

    assert_eq!(first.id, 1);
    assert_eq!(second.id, 2);
    assert_eq!(store.count_by_repository("octocat/spoon-knife"), 2);
}

#[test]
fn test_receive_unhandled_action_writes_nothing() {
    let body = "{\"action\":\"closed\",\"repository\":\"octocat/spoon-knife\",\"number\":42,\"head\":{\"sha\":\"abcdef1234567890\"}}";
    let secret = SECRET.to_string();
    let mut store = PullRequestStore::new();
    let events = vec!["pull_request".to_string()];

    let e = receive(
        &events,
        &signed(body),
        body.to_string(),
        Some(&secret),
        &mut store,
    )
    .unwrap_err();

    assert_eq!(e, WebhookError::UnsupportedAction);
    assert_eq!(store.len(), 0);
}

#[test]
fn test_receive_other_event_kind_is_unsupported() {
    let body = "{\"action\":\"created\"}";
    let secret = SECRET.to_string();
    let mut store = PullRequestStore::new();
    let events = vec!["issue_comment".to_string()];

    let e = receive(
        &events,
        &signed(body),
        body.to_string(),
        Some(&secret),
        &mut store,
    )
    .unwrap_err();

    assert_eq!(e, WebhookError::UnsupportedAction);
    assert_eq!(store.len(), 0);
}

#[test]
fn test_receive_bad_signature_writes_nothing() {
    let body = "{\"action\":\"opened\",\"repository\":\"octocat/spoon-knife\",\"number\":42,\"head\":{\"sha\":\"abcdef1234567890\"}}";
    let secret = SECRET.to_string();
    let mut store = PullRequestStore::new();
    let events = vec!["pull_request".to_string()];
    let signatures = vec!["sha1=0000000000000000000000000000000000000000".to_string()];

    let e = receive(&events, &signatures, body.to_string(), Some(&secret), &mut store).unwrap_err();

    assert_eq!(e, WebhookError::Authentication(AuthFailure::BadDigest));
    assert_eq!(e.status_class(), 400);
    assert_eq!(store.len(), 0);
}

#[test]
fn test_receive_missing_secret_is_server_error() {
    let body = "{\"action\":\"opened\"}";
    let mut store = PullRequestStore::new();
    let events = vec!["pull_request".to_string()];

    let e = receive(&events, &signed(body), body.to_string(), None, &mut store).unwrap_err();

    assert_eq!(e, WebhookError::Authentication(AuthFailure::SecretUnavailable));
    assert_eq!(e.status_class(), 500);
    assert_eq!(store.len(), 0);
}

#[test]
fn test_receive_unknown_event_is_rejected() {
    let body = "{\"action\":\"opened\"}";
    let secret = SECRET.to_string();
    let mut store = PullRequestStore::new();
    let events = vec!["deployment".to_string()];

    let e = receive(
        &events,
        &signed(body),
        body.to_string(),
        Some(&secret),
        &mut store,
    )
    .unwrap_err();

    assert_eq!(e, WebhookError::Classification);
    assert_eq!(store.len(), 0);
}

#[test]
fn test_i64_to_decimal() {
    assert_eq!(i64_to_decimal(0), "0");
    assert_eq!(i64_to_decimal(42), "42");
    assert_eq!(i64_to_decimal(-7), "-7");
    assert_eq!(i64_to_decimal(i64::MAX), "9223372036854775807");
    assert_eq!(i64_to_decimal(i64::MIN), "-9223372036854775808");
}

#[test]
fn test_index_lists_records_in_order() {
    let body_one = "{\"action\":\"opened\",\"repository\":\"octocat/spoon-knife\",\"number\":1,\"head\":{\"sha\":\"aa\"}}";
    let body_two = "{\"action\":\"opened\",\"repository\":\"octocat/hello-world\",\"number\":2,\"head\":{\"sha\":\"bb\"}}";
    let mut store = PullRequestStore::new();
    pull_request_event(body_one, &mut store).unwrap();
    pull_request_event(body_two, &mut store).unwrap();

    let rows = index(&store);
    assert_eq!(rows.len(), 2);
    assert_eq!(rows[0].id, 1);
    assert_eq!(rows[0].repository, "octocat/spoon-knife");
    assert_eq!(rows[1].id, 2);
    assert_eq!(rows[1].repository, "octocat/hello-world");
}
