//! Payload extraction: the verified body is parsed as JSON, the fields of a
//! pull-request event are read out, and each is validated for presence and
//! type before a creation request is built.

use vstd::prelude::*;
use vstd::string::StringExecFns;

use crate::errors::ValidationFailure;
use crate::errors::WebhookError;
use crate::text::decimal_of;
use crate::text::i64_to_decimal;
use crate::text::str_eq;

verus! {

#[verifier::external_type_specification]
#[verifier::external_body]
pub struct ExJsonValue(serde_json::Value);

#[verifier::external_type_specification]
#[verifier::external_body]
pub struct ExJsonError(serde_json::Error);

/// Whether a string is a well-formed JSON document, as serde_json decides it.
pub uninterp spec fn json_document(s: Seq<char>) -> bool;

/// The root `action` string field of the JSON document written as `s`, when
/// the document is an object carrying the key with a string value.
pub uninterp spec fn json_action(s: Seq<char>) -> Option<Seq<char>>;

/// The root `repository` string field of the JSON document written as `s`,
/// when the document is an object carrying the key with a string value.
pub uninterp spec fn json_repository(s: Seq<char>) -> Option<Seq<char>>;

/// The root `number` integer field of the JSON document written as `s`, when
/// the document is an object carrying the key with an integer value that fits
/// in an i64.
pub uninterp spec fn json_number(s: Seq<char>) -> Option<i64>;

/// The `sha` string field of the root `head` object of the JSON document
/// written as `s`, when both levels are present with the required types.
pub uninterp spec fn json_head_sha(s: Seq<char>) -> Option<Seq<char>>;

/// A parsed JSON document together with the text it was parsed from. Only
/// `parse_document` constructs one, so the document is always the parse of
/// the text, and what a field reader returns is a function of the text alone.
struct ParsedDocument {
    text: String,
    doc: serde_json::Value,
}

impl ParsedDocument {
    /// The text the document was parsed from.
    spec fn text(&self) -> Seq<char> {
        self.text@
    }
}

/// Relies on serde_json::from_str::<Value>: parses the text as a JSON
/// document; whether it succeeds is a property of the text alone. The parsed
/// document is kept together with its text.
#[verifier::external_body]
fn parse_document(body: &str) -> (r: Option<ParsedDocument>)
    ensures
        r is Some <==> json_document(body@),
        r matches Some(p) ==> p.text() == body@,
{
    match serde_json::from_str::<serde_json::Value>(body) {
        Ok(doc) => Some(ParsedDocument { text: body.to_string(), doc }),
        Err(_) => None,
    }
}

/// Relies on serde_json::Value::{get, as_str}: reads the root `action` string
/// field of the parsed document, a function of the document's text alone.
#[verifier::external_body]
fn document_action(p: &ParsedDocument) -> (r: Option<String>)
    ensures
        match r {
            Some(a) => json_action(p.text()) == Some(a@),
            None => json_action(p.text()) is None,
        },
{
    p.doc.get("action").and_then(|v| v.as_str()).map(|s| s.to_string())
}

/// Relies on serde_json::Value::{get, as_str}: reads the root `repository`
/// string field of the parsed document, a function of the document's text
/// alone.
#[verifier::external_body]
fn document_repository(p: &ParsedDocument) -> (r: Option<String>)
    ensures
        match r {
            Some(s) => json_repository(p.text()) == Some(s@),
            None => json_repository(p.text()) is None,
        },
{
    p.doc.get("repository").and_then(|v| v.as_str()).map(|s| s.to_string())
}

/// Relies on serde_json::Value::{get, as_i64}: reads the root `number`
/// integer field of the parsed document, a function of the document's text
/// alone.
#[verifier::external_body]
fn document_number(p: &ParsedDocument) -> (r: Option<i64>)
    ensures
        r == json_number(p.text()),
{
    p.doc.get("number").and_then(|v| v.as_i64())
}

/// Relies on serde_json::Value::{get, as_str}: reads the `sha` string field
/// of the root `head` object of the parsed document, a function of the
/// document's text alone.
#[verifier::external_body]
fn document_head_sha(p: &ParsedDocument) -> (r: Option<String>)
    ensures
        match r {
            Some(s) => json_head_sha(p.text()) == Some(s@),
            None => json_head_sha(p.text()) is None,
        },
{
    p.doc.get("head").and_then(|h| h.get("sha")).and_then(|v| v.as_str()).map(|s| s.to_string())
}

/// The payload fields that the pipeline reads, each present only when it
/// exists in the document with the required type: `repository` and the
/// `action` as root string fields, `number` as a root integer field, and
/// `head.sha` as a string field nested under the root `head` object.
pub struct PayloadFields {
    pub action: Option<String>,
    pub repository: Option<String>,
    pub number: Option<i64>,
    pub head_sha: Option<String>,
}

/// Whether the fields read from the body name the given extraction results.
pub open spec fn fields_of_text(f: PayloadFields, s: Seq<char>) -> bool {
    &&& (match f.action {
        Some(a) => json_action(s) == Some(a@),
        None => json_action(s) is None,
    })
    &&& (match f.repository {
        Some(v) => json_repository(s) == Some(v@),
        None => json_repository(s) is None,
    })
    &&& f.number == json_number(s)
    &&& (match f.head_sha {
        Some(v) => json_head_sha(s) == Some(v@),
        None => json_head_sha(s) is None,
    })
}

/// Reads the payload fields out of the raw body. Returns nothing exactly when
/// the body is not well-formed JSON; otherwise each field holds exactly the
/// named extraction result of the text, and `extract` decides from the fields
/// alone.
pub fn read_fields(body: &str) -> (r: Option<PayloadFields>)
    ensures
        r is Some <==> json_document(body@),
        r matches Some(f) ==> fields_of_text(f, body@),
{
    let p = match parse_document(body) {
        Some(p) => p,
        None => {
            return None;
        },
    };
    let action = document_action(&p);
    let repository = document_repository(&p);
    let number = document_number(&p);
    let head_sha = document_head_sha(&p);
    Some(PayloadFields { action, repository, number, head_sha })
}

/// The creation request for one pull-request record, built only from
/// validated payload fields.
#[derive(Debug, PartialEq)]
pub struct PullRequestParams {
    pub repository: String,
    pub number: String,
    pub head_sha: String,
    pub status: String,
}

/// Whether the payload's action field is present and equals "opened".
pub open spec fn action_opened(f: PayloadFields) -> bool {
    f.action matches Some(a) && a@ == "opened"@
}

/// Whether every field of a pull-request-opened payload is present.
pub open spec fn fields_complete(f: PayloadFields) -> bool {
    f.repository is Some && f.number is Some && f.head_sha is Some
}

/// The failure that extraction reports for the given fields: an action other
/// than "opened" is unsupported, and otherwise the first absent field is
/// named, in the order repository, number, head.sha.
pub open spec fn extract_failure(f: PayloadFields) -> WebhookError {
    if !action_opened(f) {
        WebhookError::UnsupportedAction
    } else if f.repository is None {
        WebhookError::Validation(ValidationFailure::NoRepository)
    } else if f.number is None {
        WebhookError::Validation(ValidationFailure::NoNumber)
    } else {
        WebhookError::Validation(ValidationFailure::NoSha)
    }
}

/// Extracts the creation request of a pull-request-opened event from the
/// payload fields: all-or-nothing, with a field-specific failure naming the
/// first absent or mistyped field, and an unsupported-action failure for any
/// action other than "opened".
pub fn extract(f: &PayloadFields) -> (r: Result<PullRequestParams, WebhookError>)
    ensures
        match r {
            Ok(p) => {
                &&& action_opened(*f)
                &&& fields_complete(*f)
                &&& p.repository@ == f.repository->0@
                &&& p.number@ == decimal_of(f.number->0 as int)
                &&& p.head_sha@ == f.head_sha->0@
                &&& p.status@ == "opened"@
            },
            Err(e) => {
                &&& !(action_opened(*f) && fields_complete(*f))
                &&& e == extract_failure(*f)
            },
        },
{
    let opened = match &f.action {
        Some(a) => str_eq(a.as_str(), "opened"),
        None => false,
    };
    if !opened {
        return Err(WebhookError::UnsupportedAction);
    }
    let repository = match &f.repository {
        Some(s) => s.clone(),
        None => {
            return Err(WebhookError::Validation(ValidationFailure::NoRepository));
        },
    };
    let number = match &f.number {
        Some(n) => i64_to_decimal(*n),
        None => {
            return Err(WebhookError::Validation(ValidationFailure::NoNumber));
        },
    };
    let head_sha = match &f.head_sha {
        Some(s) => s.clone(),
        None => {
            return Err(WebhookError::Validation(ValidationFailure::NoSha));
        },
    };
    let status = String::from_str("opened");
    Ok(PullRequestParams { repository, number, head_sha, status })
}

/// Whether the text is a well-formed JSON document whose action is "opened"
/// and whose repository, number and head.sha fields are all present with the
/// required types: exactly the payloads for which a record is owed.
pub open spec fn payload_accepted(s: Seq<char>) -> bool {
    &&& json_action(s) == Some("opened"@)
    &&& json_repository(s) is Some
    &&& json_number(s) is Some
    &&& json_head_sha(s) is Some
}

/// The failure reported for a well-formed JSON document that is not accepted:
/// an action other than "opened" is unsupported, and otherwise the first
/// absent field is named, in the order repository, number, head.sha.
pub open spec fn payload_failure(s: Seq<char>) -> WebhookError {
    if json_action(s) != Some("opened"@) {
        WebhookError::UnsupportedAction
    } else if json_repository(s) is None {
        WebhookError::Validation(ValidationFailure::NoRepository)
    } else if json_number(s) is None {
        WebhookError::Validation(ValidationFailure::NoNumber)
    } else {
        WebhookError::Validation(ValidationFailure::NoSha)
    }
}

} // verus!
