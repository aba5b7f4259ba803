//! Event classification: the event-type header value decides which kind of
//! webhook event a request carries.

use vstd::prelude::*;

use crate::errors::WebhookError;
use crate::text::str_eq;

verus! {

/// The kind of webhook event that triggered a request.
#[derive(Clone, Copy, Debug, PartialEq, Eq, Structural)]
pub enum GitHubEvent {
    PullRequest,
    IssueComment,
    Status,
}

/// The event named by a header value, if it is one of the three known event
/// names; the comparison is case-sensitive.
pub open spec fn event_of(value: Seq<char>) -> Option<GitHubEvent> {
    if value == "pull_request"@ {
        Some(GitHubEvent::PullRequest)
    } else if value == "issue_comment"@ {
        Some(GitHubEvent::IssueComment)
    } else if value == "status"@ {
        Some(GitHubEvent::Status)
    } else {
        None
    }
}

impl GitHubEvent {
    /// Classifies the event-type header: exactly one value must be present
    /// and must equal one of the three known event names; a missing, repeated
    /// or unknown value is a classification failure.
    pub fn from_request(values: &Vec<String>) -> (r: Result<GitHubEvent, WebhookError>)
        ensures
            match r {
                Ok(e) => values@.len() == 1 && event_of(values@[0]@) == Some(e),
                Err(err) => {
                    &&& values@.len() != 1 || event_of(values@[0]@) is None
                    &&& err == WebhookError::Classification
                },
            },
    {
        if values.len() != 1 {
            return Err(WebhookError::Classification);
        }
        let value = &values[0];
        if str_eq(value.as_str(), "pull_request") {
            Ok(GitHubEvent::PullRequest)
        } else if str_eq(value.as_str(), "issue_comment") {
            Ok(GitHubEvent::IssueComment)
        } else if str_eq(value.as_str(), "status") {
            Ok(GitHubEvent::Status)
        } else {
            Err(WebhookError::Classification)
        }
    }
}

} // verus!
