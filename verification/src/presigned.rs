//! URLs that carry a method and an expiry time for one object of a bucket.
//!
//! The URL is the object's address at the endpoint's host with a query: the
//! method, for any but `GET`, and the expiry time, as plain parameters
//! (`?expires=..`, or `?method=PUT&expires=..`). No signature is computed.

use crate::error::{Error, ErrorKind, ErrorView};
use crate::text::{decimal_text, push_decimal};
use std::time::{Duration, UNIX_EPOCH};
use vstd::prelude::*;
use vstd::string::*;

verus! {

/// The whole seconds that a `Duration` holds.
pub uninterp spec fn duration_secs(d: Duration) -> u64;

/// `Duration::as_secs` of the standard library: the whole seconds of the duration.
pub assume_specification[ Duration::as_secs ](d: &Duration) -> (secs: u64)
    ensures
        secs == duration_secs(*d),
;

/// `Duration::from_secs` of the standard library: a duration of that many whole
/// seconds.
pub assume_specification[ Duration::from_secs ](secs: u64) -> (d: Duration)
    ensures
        duration_secs(d) == secs,
;

/// `Clone` of `Duration`, a `Copy` type: the clone is the same duration.
pub assume_specification[ <Duration as Clone>::clone ](d: &Duration) -> (r: Duration)
    ensures
        r == *d,
;

/// What `http::Uri` makes of an endpoint: the text of the parse error where the
/// endpoint is no URI, else the host of the URI, `None` where it has none.
pub uninterp spec fn parsed_host(endpoint: Seq<char>) -> Result<Option<Seq<char>>, Seq<char>>;

/// The texts of a parsed host, for contracts.
pub open spec fn host_view(r: Result<Option<String>, String>) -> Result<
    Option<Seq<char>>,
    Seq<char>,
> {
    match r {
        Ok(Some(host)) => Ok(Some(host@)),
        Ok(None) => Ok(None),
        Err(why) => Err(why@),
    }
}

/// Parses `endpoint` with `http::Uri::from_str` and reads the host with
/// `http::Uri::host`; a parse error is handed back as the text that
/// `http::uri::InvalidUri` displays. The grammar of a URI is not spelled out
/// here: the outcome is only given a name, as a function of the endpoint's text.
#[verifier::external_body]
pub(crate) fn endpoint_host(endpoint: &str) -> (r: Result<Option<String>, String>)
    ensures
        host_view(r) == parsed_host(endpoint@),
{
    match endpoint.parse::<http::Uri>() {
        Ok(uri) => Ok(uri.host().map(|h| h.to_string())),
        Err(e) => Err(e.to_string()),
    }
}

/// `SystemTime::elapsed` of the standard library, asked of the Unix epoch: the
/// time that has passed since then by the system's clock; where the clock
/// stands before the epoch, the text of the error. Nothing is promised of the
/// value: it is the clock's.
#[verifier::external_body]
pub(crate) fn time_since_epoch() -> (r: Result<Duration, String>) {
    UNIX_EPOCH.elapsed().map_err(|e| e.to_string())
}

/// The HTTP method that a presigned URL allows.
#[derive(Debug, Clone, Copy, PartialEq, Eq, Structural)]
pub enum PresignedMethod {
    Get,
    Put,
    Delete,
}

/// The name of a method, in capitals.
pub open spec fn method_name(method: PresignedMethod) -> Seq<char> {
    match method {
        PresignedMethod::Get => "GET"@,
        PresignedMethod::Put => "PUT"@,
        PresignedMethod::Delete => "DELETE"@,
    }
}

/// The parameter that names the method, which opens the query: none for
/// `GET`, and `?method=` with its name for the others.
pub open spec fn method_query(method: PresignedMethod) -> Seq<char> {
    match method {
        PresignedMethod::Get => Seq::empty(),
        PresignedMethod::Put => "?method=PUT"@,
        PresignedMethod::Delete => "?method=DELETE"@,
    }
}

impl PresignedMethod {
    /// The name of the method, in capitals.
    pub fn as_str(&self) -> (r: &str)
        ensures
            r@ == method_name(*self),
    {
        match self {
            PresignedMethod::Get => "GET",
            PresignedMethod::Put => "PUT",
            PresignedMethod::Delete => "DELETE",
        }
    }
}

/// What a presigned URL is asked for.
#[derive(Debug, Clone)]
pub struct PresignedUrlConfig {
    /// The method the URL allows.
    pub method: PresignedMethod,
    /// The key of the object.
    pub key: String,
    /// How long the URL is good for.
    pub expires_in: Duration,
    /// The content type, for uploads.
    pub content_type: Option<String>,
}

impl PresignedUrlConfig {
    /// A request without a content type.
    pub fn new(method: PresignedMethod, key: String, expires_in: Duration) -> (r: Self)
        ensures
            r.method == method,
            r.key == key,
            r.expires_in == expires_in,
            r.content_type is None,
    {
        PresignedUrlConfig { method, key, expires_in, content_type: None }
    }

    /// The same request with the content type set.
    pub fn with_content_type(self, content_type: String) -> (r: Self)
        ensures
            r.method == self.method,
            r.key == self.key,
            r.expires_in == self.expires_in,
            r.content_type == Some(content_type),
    {
        PresignedUrlConfig {
            method: self.method,
            key: self.key,
            expires_in: self.expires_in,
            content_type: Some(content_type),
        }
    }
}

/// The address of the object `key` in `bucket` at `host`.
pub open spec fn object_address(host: Seq<char>, bucket: Seq<char>, key: Seq<char>) -> Seq<char> {
    "https://"@ + host + "/"@ + bucket + "/"@ + key
}

/// The name of the expiry parameter with the mark before it: `?` where it
/// opens the query, `&` where the method's parameter stands before it.
pub open spec fn expiry_parameter(method: PresignedMethod) -> Seq<char> {
    match method {
        PresignedMethod::Get => "?expires="@,
        _ => "&expires="@,
    }
}

/// The presigned URL: the object's address and a query that holds the
/// method, for any but `GET`, and the second at which the URL expires,
/// counted from the Unix epoch.
pub open spec fn presigned_url_text(
    host: Seq<char>,
    bucket: Seq<char>,
    key: Seq<char>,
    method: PresignedMethod,
    expires_at: nat,
) -> Seq<char> {
    object_address(host, bucket, key) + method_query(method) + expiry_parameter(method)
        + decimal_text(expires_at)
}

/// The error of this module with the given text.
pub open spec fn presign_error(detail: Seq<char>) -> ErrorView {
    ErrorView { kind: ErrorKind::PresignedUrlConfig, detail }
}

/// The text of the error for a URL whose expiry time cannot be counted in 64 bits.
pub open spec fn expiry_overflow_text() -> Seq<char> {
    "Expiration time is out of range"@
}

/// What [`presigned_url_at`] returns: the first of the failures that applies,
/// the endpoint's, then the clock's, then an expiry time that cannot be
/// counted in 64 bits; or else the URL that expires `expires_secs` seconds
/// after `now`.
pub open spec fn presigned_result(
    host: Result<Option<Seq<char>>, Seq<char>>,
    bucket: Seq<char>,
    key: Seq<char>,
    method: PresignedMethod,
    expires_secs: u64,
    now: Result<u64, Seq<char>>,
) -> Result<Seq<char>, ErrorView> {
    match host {
        Err(why) => Err(presign_error("Invalid endpoint URL: "@ + why)),
        Ok(None) => Err(presign_error("Endpoint has no host"@)),
        Ok(Some(h)) => match now {
            Err(why) => Err(presign_error("Time error: "@ + why)),
            Ok(t) => if t + expires_secs > u64::MAX {
                Err(presign_error(expiry_overflow_text()))
            } else {
                Ok(presigned_url_text(h, bucket, key, method, (t + expires_secs) as nat))
            },
        },
    }
}

/// The second of the clock, for contracts.
pub open spec fn clock_view(now: Result<u64, String>) -> Result<u64, Seq<char>> {
    match now {
        Ok(t) => Ok(t),
        Err(why) => Err(why@),
    }
}

/// The text of a result, for contracts.
pub open spec fn url_view(r: Result<String, Error>) -> Result<Seq<char>, ErrorView> {
    match r {
        Ok(url) => Ok(url@),
        Err(e) => Err(e@),
    }
}

/// Writes the presigned URL from its parts.
pub fn build_presigned_url(
    host: &str,
    bucket: &str,
    key: &str,
    method: PresignedMethod,
    expires_at: u64,
) -> (url: String)
    ensures
        url@ == presigned_url_text(host@, bucket@, key@, method, expires_at as nat),
{
    let mut url = String::from_str("https://");
    url.append(host);
    url.append("/");
    url.append(bucket);
    url.append("/");
    url.append(key);
    match method {
        PresignedMethod::Get => {
            assert(url@ =~= url@ + method_query(method));
            url.append("?expires=");
        },
        PresignedMethod::Put => {
            url.append("?method=PUT");
            url.append("&expires=");
        },
        PresignedMethod::Delete => {
            url.append("?method=DELETE");
            url.append("&expires=");
        },
    }
    push_decimal(&mut url, expires_at);
    url
}

/// The presigned URL for what the endpoint parsed to and what the clock said.
/// `host` is the outcome of parsing the endpoint, `now` the seconds since the
/// Unix epoch or the clock's error. An expiry time that cannot be counted in
/// 64 bits is an error.
pub fn presigned_url_at(
    host: Result<Option<String>, String>,
    bucket: &str,
    key: &str,
    method: PresignedMethod,
    expires_secs: u64,
    now: Result<u64, String>,
) -> (r: Result<String, Error>)
    ensures
        url_view(r) == presigned_result(
            host_view(host),
            bucket@,
            key@,
            method,
            expires_secs,
            clock_view(now),
        ),
{
    match host {
        Err(why) => {
            let mut text = String::from_str("Invalid endpoint URL: ");
            text.append(why.as_str());
            Err(Error::PresignedUrlConfig(text))
        },
        Ok(None) => Err(Error::PresignedUrlConfig(String::from_str("Endpoint has no host"))),
        Ok(Some(h)) => match now {
            Err(why) => {
                let mut text = String::from_str("Time error: ");
                text.append(why.as_str());
                Err(Error::PresignedUrlConfig(text))
            },
            Ok(t) => {
                if t > u64::MAX - expires_secs {
                    Err(
                        Error::PresignedUrlConfig(
                            String::from_str("Expiration time is out of range"),
                        ),
                    )
                } else {
                    Ok(build_presigned_url(h.as_str(), bucket, key, method, t + expires_secs))
                }
            },
        },
    }
}

/// What [`generate_presigned_url`] may return for an endpoint: the endpoint's
/// failure where it has one; else what [`presigned_result`] gives for some
/// reading of the clock.
pub open spec fn presigned_outcome(
    endpoint: Seq<char>,
    bucket: Seq<char>,
    key: Seq<char>,
    method: PresignedMethod,
    expires_secs: u64,
    r: Result<Seq<char>, ErrorView>,
) -> bool {
    let host = parsed_host(endpoint);
    if host is Ok && host->Ok_0 is Some {
        exists|now: Result<u64, Seq<char>>|
            r == #[trigger] presigned_result(host, bucket, key, method, expires_secs, now)
    } else {
        r == presigned_result(host, bucket, key, method, expires_secs, Ok(0))
    }
}

/// The presigned URL of `key` in `bucket` at `endpoint`, good for
/// `config.expires_in` from now on and for `config.method`.
///
/// Fails where the endpoint is no URI or has no host, where the clock stands
/// before the Unix epoch, and where the expiry time cannot be counted in 64
/// bits. The clock is read only for an endpoint with a host.
pub fn generate_presigned_url(
    endpoint: &str,
    bucket: &str,
    key: &str,
    config: PresignedUrlConfig,
) -> (r: Result<String, Error>)
    ensures
        presigned_outcome(
            endpoint@,
            bucket@,
            key@,
            config.method,
            duration_secs(config.expires_in),
            url_view(r),
        ),
{
    let expires_secs = config.expires_in.as_secs();
    let host = endpoint_host(endpoint);
    let needs_clock = match &host {
        Ok(Some(_)) => true,
        _ => false,
    };
    if !needs_clock {
        return presigned_url_at(host, bucket, key, config.method, expires_secs, Ok(0));
    }
    let now = match time_since_epoch() {
        Ok(elapsed) => Ok(elapsed.as_secs()),
        Err(why) => Err(why),
    };
    let ghost seen = clock_view(now);
    let r = presigned_url_at(host, bucket, key, config.method, expires_secs, now);
    assert(url_view(r) == presigned_result(
        parsed_host(endpoint@),
        bucket@,
        key@,
        config.method,
        expires_secs,
        seen,
    ));
    r
}

/// A presigned URL for downloading `key`.
pub fn generate_presigned_get_url(
    endpoint: &str,
    bucket: &str,
    key: &str,
    expires_in: Duration,
) -> (r: Result<String, Error>)
    ensures
        presigned_outcome(
            endpoint@,
            bucket@,
            key@,
            PresignedMethod::Get,
            duration_secs(expires_in),
            url_view(r),
        ),
{
    let config = PresignedUrlConfig::new(PresignedMethod::Get, String::from_str(key), expires_in);
    generate_presigned_url(endpoint, bucket, key, config)
}

/// A presigned URL for uploading `key` with the given content type.
pub fn generate_presigned_put_url(
    endpoint: &str,
    bucket: &str,
    key: &str,
    expires_in: Duration,
    content_type: &str,
) -> (r: Result<String, Error>)
    ensures
        presigned_outcome(
            endpoint@,
            bucket@,
            key@,
            PresignedMethod::Put,
            duration_secs(expires_in),
            url_view(r),
        ),
{
    let config = PresignedUrlConfig::new(
        PresignedMethod::Put,
        String::from_str(key),
        expires_in,
    ).with_content_type(String::from_str(content_type));
    generate_presigned_url(endpoint, bucket, key, config)
}

/// A presigned URL for deleting `key`.
pub fn generate_presigned_delete_url(
    endpoint: &str,
    bucket: &str,
    key: &str,
    expires_in: Duration,
) -> (r: Result<String, Error>)
    ensures
        presigned_outcome(
            endpoint@,
            bucket@,
            key@,
            PresignedMethod::Delete,
            duration_secs(expires_in),
            url_view(r),
        ),
{
    let config = PresignedUrlConfig::new(
        PresignedMethod::Delete,
        String::from_str(key),
        expires_in,
    );
    generate_presigned_url(endpoint, bucket, key, config)
}

} // verus!
