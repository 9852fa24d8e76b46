use r2pilot::presigned::{
    build_presigned_url, generate_presigned_delete_url, generate_presigned_get_url,
    generate_presigned_put_url, generate_presigned_url, presigned_url_at, PresignedMethod,
    PresignedUrlConfig,
};
use std::time::{Duration, SystemTime};

#[test]
fn test_presigned_method_display() {
    assert_eq!(PresignedMethod::Get.as_str(), "GET");
    assert_eq!(PresignedMethod::Put.as_str(), "PUT");
    assert_eq!(PresignedMethod::Delete.as_str(), "DELETE");
}

#[test]
fn test_presigned_url_config() {
    let config = PresignedUrlConfig::new(
        PresignedMethod::Put,
        "test-key.txt".to_string(),
        Duration::from_secs(3600),
    );

    assert_eq!(config.method, PresignedMethod::Put);
    assert_eq!(config.key, "test-key.txt");
    assert_eq!(config.expires_in.as_secs(), 3600);
    assert!(config.content_type.is_none());

    let config_with_ct = config.with_content_type("text/plain".to_string());
    assert_eq!(config_with_ct.content_type, Some("text/plain".to_string()));
}

#[test]
fn url_text_for_each_method() {
    assert_eq!(
        build_presigned_url("h.example", "b", "k.txt", PresignedMethod::Get, 1700000000),
        "https://h.example/b/k.txt?expires=1700000000"
    );
    assert_eq!(
        build_presigned_url("h.example", "b", "k.txt", PresignedMethod::Put, 0),
        "https://h.example/b/k.txt?method=PUT&expires=0"
    );
    assert_eq!(
        build_presigned_url("h.example", "b", "dir/k", PresignedMethod::Delete, u64::MAX),
        "https://h.example/b/dir/k?method=DELETE&expires=18446744073709551615"
    );
}

#[test]
fn url_expires_after_the_given_time() {
    let url = presigned_url_at(
        Ok(Some("h".to_string())),
        "b",
        "k",
        PresignedMethod::Put,
        7200,
        Ok(1000),
    )
    .unwrap();
    assert_eq!(url, "https://h/b/k?method=PUT&expires=8200");
}

#[test]
fn get_url_opens_its_query_with_the_expiry() {
    let url = presigned_url_at(
        Ok(Some("acct.r2.cloudflarestorage.com".to_string())),
        "b",
        "k.txt",
        PresignedMethod::Get,
        3600,
        Ok(1000),
    )
    .unwrap();
    assert_eq!(url, "https://acct.r2.cloudflarestorage.com/b/k.txt?expires=4600");
    let url = presigned_url_at(
        Ok(Some("acct.r2.cloudflarestorage.com".to_string())),
        "b",
        "k.txt",
        PresignedMethod::Delete,
        3600,
        Ok(1000),
    )
    .unwrap();
    assert_eq!(url, "https://acct.r2.cloudflarestorage.com/b/k.txt?method=DELETE&expires=4600");
}

#[test]
fn expiry_that_does_not_fit_is_an_error() {
    let host = || Ok(Some("h".to_string()));
    let err = presigned_url_at(host(), "b", "k", PresignedMethod::Get, 1, Ok(u64::MAX))
        .unwrap_err();
    assert_eq!(
        err.to_string(),
        "Invalid presigned URL configuration: Expiration time is out of range"
    );
    let err = presigned_url_at(host(), "b", "k", PresignedMethod::Put, u64::MAX, Ok(1))
        .unwrap_err();
    assert_eq!(
        err.to_string(),
        "Invalid presigned URL configuration: Expiration time is out of range"
    );
    // The largest expiry time that fits.
    let url = presigned_url_at(host(), "b", "k", PresignedMethod::Get, 1, Ok(u64::MAX - 1))
        .unwrap();
    assert_eq!(url, "https://h/b/k?expires=18446744073709551615");
    let url = presigned_url_at(host(), "b", "k", PresignedMethod::Get, 0, Ok(u64::MAX)).unwrap();
    assert_eq!(url, "https://h/b/k?expires=18446744073709551615");
    // The endpoint and the clock come first.
    let err = presigned_url_at(Ok(None), "b", "k", PresignedMethod::Get, u64::MAX, Ok(u64::MAX))
        .unwrap_err();
    assert_eq!(err.to_string(), "Invalid presigned URL configuration: Endpoint has no host");
}

#[test]
fn url_failures_in_order() {
    let err = presigned_url_at(
        Err("invalid format".to_string()),
        "b",
        "k",
        PresignedMethod::Get,
        1,
        Err("clock".to_string()),
    )
    .unwrap_err();
    assert_eq!(
        err.to_string(),
        "Invalid presigned URL configuration: Invalid endpoint URL: invalid format"
    );
    let err =
        presigned_url_at(Ok(None), "b", "k", PresignedMethod::Get, 1, Ok(1)).unwrap_err();
    assert_eq!(err.to_string(), "Invalid presigned URL configuration: Endpoint has no host");
    let err = presigned_url_at(
        Ok(Some("h".to_string())),
        "b",
        "k",
        PresignedMethod::Get,
        1,
        Err("clock".to_string()),
    )
    .unwrap_err();
    assert_eq!(err.to_string(), "Invalid presigned URL configuration: Time error: clock");
}

fn stamp_of(url: &str, prefix: &str) -> u64 {
    assert!(url.starts_with(prefix), "{} does not start with {}", url, prefix);
    url[prefix.len()..].parse().unwrap()
}

fn now() -> u64 {
    SystemTime::now().duration_since(SystemTime::UNIX_EPOCH).unwrap().as_secs()
}

#[test]
fn generated_url_uses_the_endpoints_host() {
    let config =
        PresignedUrlConfig::new(PresignedMethod::Put, "ignored".to_string(), Duration::from_secs(30));
    let url = generate_presigned_url(
        "https://user@Acc.r2.cloudflarestorage.com:443/path",
        "bucket",
        "key.bin",
        config,
    )
    .unwrap();
    let stamp = stamp_of(&url, "https://Acc.r2.cloudflarestorage.com/bucket/key.bin?method=PUT&expires=");
    let t = now();
    assert!(stamp >= t + 29 && stamp <= t + 31);
}

#[test]
fn generated_urls_for_get_put_delete() {
    let e = "https://acc.r2.cloudflarestorage.com";
    let d = Duration::from_secs(10);
    let url = generate_presigned_get_url(e, "b", "k", d).unwrap();
    stamp_of(&url, "https://acc.r2.cloudflarestorage.com/b/k?expires=");
    let url = generate_presigned_put_url(e, "b", "k", d, "text/plain").unwrap();
    stamp_of(&url, "https://acc.r2.cloudflarestorage.com/b/k?method=PUT&expires=");
    let url = generate_presigned_delete_url(e, "b", "k", d).unwrap();
    stamp_of(&url, "https://acc.r2.cloudflarestorage.com/b/k?method=DELETE&expires=");
}

#[test]
fn generated_url_rejects_bad_endpoints() {
    let d = Duration::from_secs(10);
    let err = generate_presigned_get_url("", "b", "k", d).unwrap_err();
    assert_eq!(
        err.to_string(),
        "Invalid presigned URL configuration: Invalid endpoint URL: empty string"
    );
    let err = generate_presigned_get_url("http://exa mple.com", "b", "k", d).unwrap_err();
    assert!(err.to_string().starts_with("Invalid presigned URL configuration: Invalid endpoint URL: "));
    let err = generate_presigned_get_url("/just/a/path", "b", "k", d).unwrap_err();
    assert_eq!(err.to_string(), "Invalid presigned URL configuration: Endpoint has no host");
}

#[test]
fn generated_url_rejects_an_expiry_that_does_not_fit() {
    let err = generate_presigned_get_url("https://h", "b", "k", Duration::from_secs(u64::MAX))
        .unwrap_err();
    assert_eq!(
        err.to_string(),
        "Invalid presigned URL configuration: Expiration time is out of range"
    );
}
