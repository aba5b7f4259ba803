//! Webhook ingestion pipeline: signature verification over a shared secret,
//! event classification from a header value, payload extraction from untrusted
//! JSON, and persistence of pull-request records.

mod errors;
mod event;
mod hex;
mod payload;
mod sign;
mod store;
mod text;
mod webhook;

pub use errors::AuthFailure;
pub use errors::ValidationFailure;
pub use errors::WebhookError;
pub use event::GitHubEvent;
pub use hex::bytes_to_hex;
pub use payload::PayloadFields;
pub use payload::PullRequestParams;
pub use payload::extract;
pub use payload::read_fields;
pub use sign::SignedPayload;
pub use sign::hmac_hex;
pub use sign::is_valid_signature;
pub use sign::verify;
pub use store::PullRequest;
pub use store::PullRequestStore;
pub use store::index;
pub use text::i64_to_decimal;
pub use webhook::pull_request_event;
pub use webhook::receive;
