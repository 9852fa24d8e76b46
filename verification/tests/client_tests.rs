use r2pilot::client::{requires_multipart_upload, ObjectInfo, ObjectMetadata, R2Client};
use std::time::SystemTime;

#[test]
fn test_object_info() {
    let info = ObjectInfo {
        key: "test/file.txt".to_string(),
        size: 1024,
        last_modified: aws_smithy_types::DateTime::from(SystemTime::UNIX_EPOCH),
        etag: "abc123".to_string(),
    };

    assert_eq!(info.key, "test/file.txt");
    assert_eq!(info.size, 1024);
}

#[test]
fn multipart_is_required_only_above_100_mib() {
    assert!(!requires_multipart_upload(0));
    assert!(!requires_multipart_upload(100 * 1024 * 1024));
    assert!(requires_multipart_upload(100 * 1024 * 1024 + 1));
    assert!(requires_multipart_upload(u64::MAX));
}

#[test]
fn listing_entry_fills_missing_fields() {
    let t = aws_smithy_types::DateTime::from_secs(1700000000);
    let info = ObjectInfo::from_entry(None, None, t, None);
    assert_eq!(info.key, "");
    assert_eq!(info.size, 0);
    assert_eq!(info.etag, "");
    assert_eq!(info.last_modified, t);

    let info = ObjectInfo::from_entry(
        Some("a/b.txt".to_string()),
        Some(42),
        t,
        Some("\"tag\"".to_string()),
    );
    assert_eq!(info.key, "a/b.txt");
    assert_eq!(info.size, 42);
    assert_eq!(info.etag, "\"tag\"");
}

#[test]
fn head_answer_fills_missing_fields() {
    let t = aws_smithy_types::DateTime::from_secs(5);
    let meta = ObjectMetadata::from_head("k", None, None, t, None);
    assert_eq!(meta.key, "k");
    assert_eq!(meta.size, 0);
    assert_eq!(meta.content_type, "");
    assert_eq!(meta.etag, "");
    let meta = ObjectMetadata::from_head(
        "k",
        Some(7),
        Some("text/plain".to_string()),
        t,
        Some("e".to_string()),
    );
    assert_eq!(meta.size, 7);
    assert_eq!(meta.content_type, "text/plain");
    assert_eq!(meta.etag, "e");
    assert_eq!(meta.last_modified, t);
}

fn client(endpoint: &str) -> R2Client {
    R2Client::new(
        endpoint.to_string(),
        "key-id".to_string(),
        "secret".to_string(),
        "media".to_string(),
    )
    .unwrap()
}

#[test]
fn client_keeps_what_it_was_given() {
    let c = client("https://acc.r2.cloudflarestorage.com");
    assert_eq!(c.bucket(), "media");
    assert_eq!(c.endpoint(), "https://acc.r2.cloudflarestorage.com");
    assert_eq!(c.access_key_id(), "key-id");
    assert_eq!(c.secret_access_key(), "secret");
}

#[test]
fn copy_source_names_bucket_and_key() {
    let c = client("https://acc.r2.cloudflarestorage.com");
    assert_eq!(c.copy_source("a/b.txt"), "media/a/b.txt");
    assert_eq!(c.copy_source(""), "media/");
}

#[test]
fn object_exists_reads_the_failure_text() {
    let c = client("https://acc.r2.cloudflarestorage.com");
    assert_eq!(c.object_exists(Ok(())).unwrap(), true);
    assert_eq!(c.object_exists(Err("service error: NoSuchKey".to_string())).unwrap(), false);
    assert_eq!(c.object_exists(Err("Not Found".to_string())).unwrap(), false);
    assert_eq!(c.object_exists(Err("status 404".to_string())).unwrap(), false);
    let err = c.object_exists(Err("Access Denied".to_string())).unwrap_err();
    assert!(matches!(err, r2pilot::Error::R2Operation(_)));
    assert_eq!(err.to_string(), "R2 operation failed: Access Denied");
}

#[test]
fn object_exists_given_uses_the_lowered_text_as_handed_in() {
    // The text in capitals does not hold `nosuchkey`: the search is exact.
    let r = R2Client::object_exists_given(Err("NOSUCHKEY".to_string()), "NOSUCHKEY");
    assert!(r.is_err());
    let r = R2Client::object_exists_given(Err("NOSUCHKEY".to_string()), "nosuchkey");
    assert_eq!(r.unwrap(), false);
}

#[test]
fn session_id_and_tag_are_required() {
    let c = client("https://acc.r2.cloudflarestorage.com");
    assert_eq!(c.create_multipart_upload(Some("u-1".to_string())).unwrap(), "u-1");
    let err = c.create_multipart_upload(None).unwrap_err();
    assert_eq!(err.to_string(), "Multipart upload error: No upload ID returned");

    let part = c.upload_part(3, Some("etag-3".to_string())).unwrap();
    assert_eq!(part.part_number, 3);
    assert_eq!(part.etag, "etag-3");
    let err = c.upload_part(3, None).unwrap_err();
    assert_eq!(err.to_string(), "Multipart upload error: No ETag returned for part");
}

#[test]
fn direct_url_is_address_and_expiry() {
    let url = r2pilot::client::direct_url_at(
        Ok(Some("acc.r2.cloudflarestorage.com".to_string())),
        "media",
        "a/b.txt",
        3600,
        Ok(1_700_000_000),
    )
    .unwrap();
    assert_eq!(url, "https://acc.r2.cloudflarestorage.com/media/a/b.txt?expires=1700003600");
}

#[test]
fn direct_url_reports_endpoint_and_clock_failures() {
    let err = r2pilot::client::direct_url_at(Err("empty string".to_string()), "b", "k", 1, Ok(1))
        .unwrap_err();
    assert_eq!(err.to_string(), "Invalid configuration format: Invalid endpoint URL: empty string");
    let err = r2pilot::client::direct_url_at(Ok(None), "b", "k", 1, Ok(1)).unwrap_err();
    assert_eq!(err.to_string(), "Invalid configuration format: Endpoint has no host");
    let err = r2pilot::client::direct_url_at(
        Ok(Some("h".to_string())),
        "b",
        "k",
        1,
        Err("before epoch".to_string()),
    )
    .unwrap_err();
    assert_eq!(err.to_string(), "R2 operation failed: Time error: before epoch");
}

#[test]
fn direct_url_rejects_an_expiry_that_does_not_fit() {
    let host = || Ok(Some("h".to_string()));
    let err = r2pilot::client::direct_url_at(host(), "b", "k", 1, Ok(u64::MAX)).unwrap_err();
    assert_eq!(err.to_string(), "R2 operation failed: Expiration time is out of range");
    let url = r2pilot::client::direct_url_at(host(), "b", "k", 1, Ok(u64::MAX - 1)).unwrap();
    assert_eq!(url, "https://h/b/k?expires=18446744073709551615");
    let err = r2pilot::client::direct_url_at(Ok(None), "b", "k", u64::MAX, Ok(u64::MAX))
        .unwrap_err();
    assert_eq!(err.to_string(), "Invalid configuration format: Endpoint has no host");
}

#[test]
fn client_url_uses_host_of_endpoint() {
    let c = client("https://acc.r2.cloudflarestorage.com:8443/ignored?x=1");
    let url = c.generate_presigned_url("a.txt", std::time::Duration::from_secs(60)).unwrap();
    let prefix = "https://acc.r2.cloudflarestorage.com/media/a.txt?expires=";
    assert!(url.starts_with(prefix));
    let stamp: u64 = url[prefix.len()..].parse().unwrap();
    let now = SystemTime::now().duration_since(SystemTime::UNIX_EPOCH).unwrap().as_secs();
    assert!(stamp >= now + 59 && stamp <= now + 61);
}

#[test]
fn client_url_fails_on_bad_endpoint() {
    let err = client("").generate_presigned_url("a", std::time::Duration::from_secs(1)).unwrap_err();
    assert_eq!(err.to_string(), "Invalid configuration format: Invalid endpoint URL: empty string");
    let err = client("/only/a/path")
        .generate_presigned_url("a", std::time::Duration::from_secs(1))
        .unwrap_err();
    assert_eq!(err.to_string(), "Invalid configuration format: Endpoint has no host");
    let err = client("https://h")
        .generate_presigned_url("a", std::time::Duration::from_secs(u64::MAX))
        .unwrap_err();
    assert_eq!(err.to_string(), "R2 operation failed: Expiration time is out of range");
}
