//! The failure taxonomy of the ingestion pipeline, with the status class and
//! the diagnostic message of each failure.

use vstd::prelude::*;

verus! {

/// Why signature authentication failed.
#[derive(Clone, Copy, Debug, PartialEq, Eq, Structural)]
pub enum AuthFailure {
    /// The signature header is absent or carries more than one value.
    MalformedHeader,
    /// The shared secret is not configured.
    SecretUnavailable,
    /// The signature does not match the body under the secret.
    BadDigest,
}

/// Which part of the payload failed validation.
#[derive(Clone, Copy, Debug, PartialEq, Eq, Structural)]
pub enum ValidationFailure {
    /// The body is not a well-formed JSON document.
    InvalidJson,
    /// The root `repository` string field is absent or mistyped.
    NoRepository,
    /// The root `number` integer field is absent or mistyped.
    NoNumber,
    /// The `head.sha` string field is absent or mistyped.
    NoSha,
}

/// Every failure the ingestion pipeline can report.
#[derive(Clone, Copy, Debug, PartialEq, Eq, Structural)]
pub enum WebhookError {
    /// Bad or missing signature, or a misconfigured secret.
    Authentication(AuthFailure),
    /// Missing, repeated or unknown event header.
    Classification,
    /// Malformed body or a missing or mistyped required field.
    Validation(ValidationFailure),
    /// A recognized event whose action or kind is not handled.
    UnsupportedAction,
    /// A storage-layer write failure.
    Storage,
}

impl WebhookError {
    /// The HTTP status class of the failure: 500 for server-side conditions
    /// (missing secret, storage), 400 for caller-attributable input.
    pub open spec fn spec_status_class(self) -> u16 {
        match self {
            WebhookError::Authentication(AuthFailure::SecretUnavailable) => 500,
            WebhookError::Storage => 500,
            _ => 400,
        }
    }

    /// Returns the HTTP status class of the failure.
    pub fn status_class(&self) -> (s: u16)
        ensures
            s == self.spec_status_class(),
    {
        match self {
            WebhookError::Authentication(AuthFailure::SecretUnavailable) => 500,
            WebhookError::Storage => 500,
            _ => 400,
        }
    }

    /// The short diagnostic message of the failure.
    pub open spec fn spec_message(self) -> Seq<char> {
        match self {
            WebhookError::Authentication(AuthFailure::MalformedHeader) => "Missing signature"@,
            WebhookError::Authentication(AuthFailure::SecretUnavailable) => "Webhook secret unavailable"@,
            WebhookError::Authentication(AuthFailure::BadDigest) => "Invalid signature"@,
            WebhookError::Classification => "Unknown event type"@,
            WebhookError::Validation(ValidationFailure::InvalidJson) => "Could not decode request body"@,
            WebhookError::Validation(ValidationFailure::NoRepository) => "No repository"@,
            WebhookError::Validation(ValidationFailure::NoNumber) => "No number"@,
            WebhookError::Validation(ValidationFailure::NoSha) => "No SHA"@,
            WebhookError::UnsupportedAction => "Can't handle action"@,
            WebhookError::Storage => "Error creating pull request"@,
        }
    }

    /// Returns the short diagnostic message of the failure.
    pub fn message(&self) -> (m: &'static str)
        ensures
            m@ == self.spec_message(),
    {
        match self {
            WebhookError::Authentication(AuthFailure::MalformedHeader) => "Missing signature",
            WebhookError::Authentication(AuthFailure::SecretUnavailable) => "Webhook secret unavailable",
            WebhookError::Authentication(AuthFailure::BadDigest) => "Invalid signature",
            WebhookError::Classification => "Unknown event type",
            WebhookError::Validation(ValidationFailure::InvalidJson) => "Could not decode request body",
            WebhookError::Validation(ValidationFailure::NoRepository) => "No repository",
            WebhookError::Validation(ValidationFailure::NoNumber) => "No number",
            WebhookError::Validation(ValidationFailure::NoSha) => "No SHA",
            WebhookError::UnsupportedAction => "Can't handle action",
            WebhookError::Storage => "Error creating pull request",
        }
    }
}

} // verus!
