use railgun::bytes_to_hex;
use railgun::hmac_hex;
use railgun::is_valid_signature;
use railgun::verify;
use railgun::AuthFailure;
use railgun::SignedPayload;
use railgun::WebhookError;

#[test]
fn test_is_valid_signature() {
    let signature = "sha1=51633b546c869c7de65ce2f44d0c5eb49c0e5101";
    let body = "hello_world";
    let secret = "SUPERS3CR3T";

    assert!(is_valid_signature(signature, body, secret));
}

#[test]
fn test_hmac_hex_known_value() {
    assert_eq!(
        hmac_hex("hello_world", "SUPERS3CR3T"),
        "51633b546c869c7de65ce2f44d0c5eb49c0e5101"
    );
}

#[test]
fn test_bytes_to_hex() {
    assert_eq!(bytes_to_hex(&[0x00, 0x0f, 0xa5, 0xff]), "000fa5ff");
    assert_eq!(bytes_to_hex(&[]), "");
}

#[test]
fn test_verify_accepts_own_digest() {
    let body = "some webhook body";
    let secret = "a shared secret";
    let signature = hmac_hex(body, secret);
    assert!(verify(body, &signature, secret));
}

#[test]
fn test_verify_rejects_flipped_byte() {
    let body = "some webhook body";
    let secret = "a shared secret";
    let signature = hmac_hex(body, secret);
    for i in 0..signature.len() {
        let mut flipped: Vec<char> = signature.chars().collect();
        flipped[i] = if flipped[i] == '0' { '1' } else { '0' };
        let flipped: String = flipped.into_iter().collect();
        assert!(!verify(body, &flipped, secret));
    }
}

#[test]
fn test_from_data_accepts_matching_signature() {
    let secret = "SUPERS3CR3T".to_string();
    let body = "hello_world".to_string();
    let values = vec!["sha1=51633b546c869c7de65ce2f44d0c5eb49c0e5101".to_string()];
    let r = SignedPayload::from_data(&values, body, Some(&secret));
    assert_eq!(r, Ok(SignedPayload("hello_world".to_string())));
}

#[test]
fn test_from_data_rejects_missing_header() {
    let secret = "SUPERS3CR3T".to_string();
    let values: Vec<String> = vec![];
    let r = SignedPayload::from_data(&values, "hello_world".to_string(), Some(&secret));
    assert_eq!(
        r,
        Err(WebhookError::Authentication(AuthFailure::MalformedHeader))
    );
}

#[test]
fn test_from_data_rejects_repeated_header() {
    let secret = "SUPERS3CR3T".to_string();
    let good = "sha1=51633b546c869c7de65ce2f44d0c5eb49c0e5101".to_string();
    let values = vec![good.clone(), good];
    let r = SignedPayload::from_data(&values, "hello_world".to_string(), Some(&secret));
    assert_eq!(
        r,
        Err(WebhookError::Authentication(AuthFailure::MalformedHeader))
    );
}

#[test]
fn test_from_data_rejects_missing_secret() {
    let values = vec!["sha1=51633b546c869c7de65ce2f44d0c5eb49c0e5101".to_string()];
    let r = SignedPayload::from_data(&values, "hello_world".to_string(), None);
    let e = r.unwrap_err();
    assert_eq!(
        e,
        WebhookError::Authentication(AuthFailure::SecretUnavailable)
    );
    assert_eq!(e.status_class(), 500);
}

#[test]
fn test_from_data_rejects_wrong_digest() {
    let secret = "SUPERS3CR3T".to_string();
    let values = vec!["sha1=0000000000000000000000000000000000000000".to_string()];
    let r = SignedPayload::from_data(&values, "hello_world".to_string(), Some(&secret));
    let e = r.unwrap_err();
    assert_eq!(e, WebhookError::Authentication(AuthFailure::BadDigest));
    assert_eq!(e.status_class(), 400);
}

#[test]
fn test_from_data_rejects_header_without_separator() {
    let secret = "SUPERS3CR3T".to_string();
    let values = vec!["51633b546c869c7de65ce2f44d0c5eb49c0e5101".to_string()];
    let r = SignedPayload::from_data(&values, "hello_world".to_string(), Some(&secret));
    assert_eq!(
        r,
        Err(WebhookError::Authentication(AuthFailure::BadDigest))
    );
}
