//! Metadata mirror: location parsing, the conditional-fetch protocol and
//! its availability-over-freshness degradation.

use ebook_core::mirror::{
    parse_s3_uri, FetchResponse, LocalDBConnector, MirrorError, RefreshOutcome, S3DBConnector,
};

fn mirror() -> S3DBConnector {
    S3DBConnector::new(
        &"s3://library/catalog/metadata.db".to_string(),
        &"us-east-1".to_string(),
    )
    .unwrap()
}

#[test]
fn local_connector_keeps_its_path() {
    let c = LocalDBConnector::new(&"/books/metadata.db".to_string());
    assert_eq!(c.dbpath(), "/books/metadata.db");
}

#[test]
fn s3_uri_splits_into_bucket_and_key() {
    let (bucket, key) = parse_s3_uri("s3://library/catalog/metadata.db").unwrap();
    assert_eq!(bucket, "library");
    assert_eq!(key, "catalog/metadata.db");
}

#[test]
fn s3_uri_without_key_or_with_extra_slashes() {
    let (bucket, key) = parse_s3_uri("s3://library").unwrap();
    assert_eq!(bucket, "library");
    assert_eq!(key, "");
    let (bucket, key) = parse_s3_uri("s3://library//double/key").unwrap();
    assert_eq!(bucket, "library");
    assert_eq!(key, "double/key");
}

#[test]
fn malformed_locations_are_rejected() {
    assert!(parse_s3_uri("http://library/x").is_none());
    assert!(parse_s3_uri("s3://").is_none());
    assert!(parse_s3_uri("s3:///no-bucket").is_none());
    assert!(parse_s3_uri("s3:/library").is_none());
}

#[test]
fn new_mirror_starts_without_a_fetch_on_record() {
    let m = mirror();
    assert_eq!(m.s3_bucket, "library");
    assert_eq!(m.s3_key, "catalog/metadata.db");
    assert_eq!(m.s3_region, "us-east-1");
    assert_eq!(m.local_dbpath, "/tmp/cached_metadata.db");
    assert!(m.last_update.is_none());
}

#[test]
fn first_request_is_unconditional() {
    let m = mirror();
    let req = m.build_fetch_request();
    assert_eq!(req.bucket, "library");
    assert_eq!(req.key, "catalog/metadata.db");
    assert!(req.if_modified_since.is_none());
}

#[test]
fn successful_fetch_stores_the_returned_timestamp() {
    let mut m = mirror();
    let r = m.apply_fetch_response(FetchResponse::Success {
        last_modified: Some("Tue, 01 Oct 2019 12:00:00 GMT".to_string()),
    });
    assert!(matches!(r, Ok(RefreshOutcome::Refreshed)));
    assert_eq!(m.last_update.as_deref(), Some("Tue, 01 Oct 2019 12:00:00 GMT"));
}

#[test]
fn second_request_is_conditional_and_not_modified_downloads_nothing() {
    // First call fetches and records T1; the next request carries T1 and a
    // "not modified" reply leaves everything as it was.
    let mut m = mirror();
    let r = m.apply_fetch_response(FetchResponse::Success {
        last_modified: Some("T1".to_string()),
    });
    assert!(matches!(r, Ok(RefreshOutcome::Refreshed)));
    let req = m.build_fetch_request();
    assert_eq!(req.if_modified_since.as_deref(), Some("T1"));
    let r = m.apply_fetch_response(FetchResponse::NotModified);
    assert!(matches!(r, Ok(RefreshOutcome::UsedExistingCache)));
    assert_eq!(m.last_update.as_deref(), Some("T1"));
    assert_eq!(m.local_dbpath, "/tmp/cached_metadata.db");
}

#[test]
fn ambiguous_transport_error_degrades_to_the_cached_file() {
    // Documented-but-suspect: an unknown transport error is treated like
    // "not modified" and the stale cache is served.
    let mut m = mirror();
    let r = m.apply_fetch_response(FetchResponse::Success {
        last_modified: Some("T1".to_string()),
    });
    assert!(matches!(r, Ok(RefreshOutcome::Refreshed)));
    let r = m.apply_fetch_response(FetchResponse::UnknownError {
        detail: "status 304".to_string(),
    });
    assert!(matches!(r, Ok(RefreshOutcome::UsedExistingCache)));
    assert_eq!(m.last_update.as_deref(), Some("T1"));
}

#[test]
fn missing_key_and_bad_credentials_are_fatal() {
    let mut m = mirror();
    let r = m.apply_fetch_response(FetchResponse::NoSuchKey {
        key: "catalog/metadata.db".to_string(),
    });
    assert!(matches!(r, Err(MirrorError::NoSuchKey { .. })));
    let r = m.apply_fetch_response(FetchResponse::CredentialsError {
        detail: "rejected".to_string(),
    });
    assert!(matches!(r, Err(MirrorError::CredentialsError { .. })));
    let r = m.apply_fetch_response(FetchResponse::OtherError {
        detail: "timeout".to_string(),
    });
    assert!(matches!(r, Err(MirrorError::TransportError { .. })));
    // none of these moved the timestamp
    assert!(m.last_update.is_none());
}

#[test]
fn mirror_error_messages() {
    let e = MirrorError::NoSuchKey { key: "catalog/metadata.db".to_string() };
    assert_eq!(e.message(), "No such key: catalog/metadata.db");
    let e = MirrorError::CredentialsError { detail: "rejected".to_string() };
    assert_eq!(e.message(), "credential");
    let e = MirrorError::TransportError { detail: "timeout".to_string() };
    assert_eq!(e.message(), "Other error timeout");
}
