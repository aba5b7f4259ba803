//! The ingestion coordinator: strictly sequential gates from the raw request
//! to a persisted record. Signature verification comes first, then event
//! classification, then parsing and extraction, then the write; the first
//! failing gate short-circuits the rest, and every failure is mapped to one
//! typed outcome.

use vstd::prelude::*;

use crate::errors::AuthFailure;
use crate::errors::ValidationFailure;
use crate::errors::WebhookError;
use crate::event::GitHubEvent;
use crate::event::event_of;
use crate::payload::extract;
use crate::payload::json_document;
use crate::payload::json_head_sha;
use crate::payload::json_number;
use crate::payload::json_repository;
use crate::payload::payload_accepted;
use crate::payload::payload_failure;
use crate::payload::read_fields;
use crate::text::decimal_of;
use crate::sign::SignedPayload;
use crate::sign::header_matches;
use crate::store::PullRequest;
use crate::store::PullRequestStore;

verus! {

/// Handles a classified pull-request event: parses the verified body as JSON,
/// extracts the fields of an "opened" action, and persists exactly one new
/// record, succeeding if and only if the body is a well-formed document whose
/// action is "opened" with every required field present. On any failure the
/// store is left untouched.
pub fn pull_request_event(body: &str, store: &mut PullRequestStore) -> (r: Result<
    PullRequest,
    WebhookError,
>)
    requires
        old(store).wf(),
        old(store).rows().len() < i32::MAX,
    ensures
        final(store).wf(),
        match r {
            Ok(pr) => {
                &&& json_document(body@)
                &&& payload_accepted(body@)
                &&& final(store).rows() == old(store).rows().push(pr)
                &&& pr.id == old(store).rows().len() + 1
                &&& pr.repository@ == json_repository(body@)->0
                &&& pr.number@ == decimal_of(json_number(body@)->0 as int)
                &&& pr.head_sha@ == json_head_sha(body@)->0
                &&& pr.status@ == "opened"@
            },
            Err(e) => {
                &&& final(store).rows() == old(store).rows()
                &&& !(json_document(body@) && payload_accepted(body@))
                &&& e == if json_document(body@) {
                    payload_failure(body@)
                } else {
                    WebhookError::Validation(ValidationFailure::InvalidJson)
                }
            },
        },
{
    let fields = match read_fields(body) {
        Some(f) => f,
        None => {
            return Err(WebhookError::Validation(ValidationFailure::InvalidJson));
        },
    };
    let params = match extract(&fields) {
        Ok(p) => p,
        Err(e) => {
            return Err(e);
        },
    };
    let pr = store.create(params);
    Ok(pr)
}

/// The coordinator for one inbound request. The gates run strictly in order:
/// the signature header must authenticate the body under the secret, the
/// event header must classify, only a pull-request event proceeds to parsing
/// and extraction, and an accepted "opened" event persists exactly one new
/// record — success is owed whenever every gate passes. Classified events of
/// any other kind are explicitly unhandled and reported, never silently
/// accepted.
pub fn receive(
    event_values: &Vec<String>,
    signature_values: &Vec<String>,
    body: String,
    secret: Option<&String>,
    store: &mut PullRequestStore,
) -> (r: Result<PullRequest, WebhookError>)
    requires
        old(store).wf(),
        old(store).rows().len() < i32::MAX,
    ensures
        final(store).wf(),
        match r {
            Ok(pr) => {
                &&& signature_values@.len() == 1
                &&& secret is Some
                &&& header_matches(signature_values@[0]@, body@, secret->0@)
                &&& event_values@.len() == 1
                &&& event_of(event_values@[0]@) == Some(GitHubEvent::PullRequest)
                &&& json_document(body@)
                &&& payload_accepted(body@)
                &&& final(store).rows() == old(store).rows().push(pr)
                &&& pr.id == old(store).rows().len() + 1
                &&& pr.repository@ == json_repository(body@)->0
                &&& pr.number@ == decimal_of(json_number(body@)->0 as int)
                &&& pr.head_sha@ == json_head_sha(body@)->0
                &&& pr.status@ == "opened"@
            },
            Err(e) => {
                &&& final(store).rows() == old(store).rows()
                &&& if signature_values@.len() != 1 {
                    e == WebhookError::Authentication(AuthFailure::MalformedHeader)
                } else if secret is None {
                    e == WebhookError::Authentication(AuthFailure::SecretUnavailable)
                } else if !header_matches(signature_values@[0]@, body@, secret->0@) {
                    e == WebhookError::Authentication(AuthFailure::BadDigest)
                } else if event_values@.len() != 1 || event_of(event_values@[0]@) is None {
                    e == WebhookError::Classification
                } else if event_of(event_values@[0]@) != Some(GitHubEvent::PullRequest) {
                    e == WebhookError::UnsupportedAction
                } else if !json_document(body@) {
                    e == WebhookError::Validation(ValidationFailure::InvalidJson)
                } else {
                    &&& !payload_accepted(body@)
                    &&& e == payload_failure(body@)
                }
            },
        },
{
    let payload = match SignedPayload::from_data(signature_values, body, secret) {
        Ok(p) => p,
        Err(e) => {
            return Err(e);
        },
    };
    let event = match GitHubEvent::from_request(event_values) {
        Ok(ev) => ev,
        Err(e) => {
            return Err(e);
        },
    };
    match event {
        GitHubEvent::PullRequest => pull_request_event(payload.0.as_str(), store),
        GitHubEvent::IssueComment => Err(WebhookError::UnsupportedAction),
        GitHubEvent::Status => Err(WebhookError::UnsupportedAction),
    }
}

} // verus!
