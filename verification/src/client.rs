//! The object store: what identifies a bucket at an endpoint, what the store's
//! answers are turned into, and when a file is sent in parts.
//!
//! Nothing is sent from here. The caller talks to the store and hands its
//! answers in; what is decided of them is decided here.

use crate::error::{Error, ErrorKind, ErrorView};
use crate::multipart::{no_etag, no_upload_id, CompletedPart, PartView};
use crate::presigned::{
    clock_view, duration_secs, endpoint_host, host_view, object_address, parsed_host,
    time_since_epoch, url_view,
};
use crate::text::{
    concat3, contains, decimal_text, lowercase_of, occurs_in, push_decimal, to_lowercase,
};
use aws_smithy_types::DateTime;
use std::time::Duration;
use vstd::prelude::*;
use vstd::string::*;

verus! {

/// `aws_smithy_types::DateTime`, a point in time as the store reports it.
/// Nothing here looks inside: the value is carried through.
#[verifier::external_type_specification]
#[verifier::external_body]
pub struct ExDateTime(DateTime);

/// `Clone` of `aws_smithy_types::DateTime`, a `Copy` type whose `Clone` is
/// derived: the clone is the same point in time.
pub assume_specification[ <DateTime as Clone>::clone ](t: &DateTime) -> (r: DateTime)
    ensures
        r == *t,
;

/// The size above which a file is sent in parts: 100 MiB.
pub const MULTIPART_THRESHOLD: u64 = 104857600;

/// Whether a file of `file_size` bytes is sent in parts: it is where it is
/// larger than [`MULTIPART_THRESHOLD`].
pub fn requires_multipart_upload(file_size: u64) -> (r: bool)
    ensures
        r == (file_size > MULTIPART_THRESHOLD),
{
    file_size > MULTIPART_THRESHOLD
}

/// An object as a listing shows it.
#[derive(Debug, Clone)]
pub struct ObjectInfo {
    pub key: String,
    pub size: i64,
    pub last_modified: DateTime,
    pub etag: String,
}

/// An object as the store describes it.
#[derive(Debug, Clone)]
pub struct ObjectMetadata {
    pub key: String,
    pub size: i64,
    pub content_type: String,
    pub last_modified: DateTime,
    pub etag: String,
}

/// The text of an optional string, empty where there is none.
pub open spec fn text_or_empty(text: Option<String>) -> Seq<char> {
    match text {
        Some(t) => t@,
        None => Seq::empty(),
    }
}

fn or_empty(text: Option<String>) -> (r: String)
    ensures
        r@ == text_or_empty(text),
{
    match text {
        Some(t) => t,
        None => String::new(),
    }
}

impl ObjectInfo {
    /// The entry of a listing as an [`ObjectInfo`]: a missing key or tag is
    /// the empty text, a missing size is 0.
    pub fn from_entry(
        key: Option<String>,
        size: Option<i64>,
        last_modified: DateTime,
        etag: Option<String>,
    ) -> (r: Self)
        ensures
            r.key@ == text_or_empty(key),
            r.size == (match size {
                Some(n) => n,
                None => 0,
            }),
            r.last_modified == last_modified,
            r.etag@ == text_or_empty(etag),
    {
        ObjectInfo {
            key: or_empty(key),
            size: match size {
                Some(n) => n,
                None => 0,
            },
            last_modified,
            etag: or_empty(etag),
        }
    }
}

impl ObjectMetadata {
    /// The store's description of the object `key` as an [`ObjectMetadata`]:
    /// a missing content type or tag is the empty text, a missing size is 0.
    pub fn from_head(
        key: &str,
        size: Option<i64>,
        content_type: Option<String>,
        last_modified: DateTime,
        etag: Option<String>,
    ) -> (r: Self)
        ensures
            r.key@ == key@,
            r.size == (match size {
                Some(n) => n,
                None => 0,
            }),
            r.content_type@ == text_or_empty(content_type),
            r.last_modified == last_modified,
            r.etag@ == text_or_empty(etag),
    {
        ObjectMetadata {
            key: String::from_str(key),
            size: match size {
                Some(n) => n,
                None => 0,
            },
            content_type: or_empty(content_type),
            last_modified,
            etag: or_empty(etag),
        }
    }
}

/// Whether the text of a failure, in lower case, says that the object is not
/// there: it names `nosuchkey`, `not found` or `404`.
pub open spec fn says_missing(lowered: Seq<char>) -> bool {
    occurs_in(lowered, "nosuchkey"@) || occurs_in(lowered, "not found"@) || occurs_in(
        lowered,
        "404"@,
    )
}

/// Whether the text of a failure, in lower case, says that the object is not
/// there.
pub fn failure_says_missing(lowered: &str) -> (r: bool)
    ensures
        r == says_missing(lowered@),
{
    contains(lowered, "nosuchkey") || contains(lowered, "not found") || contains(lowered, "404")
}

/// What the outcome of asking the store about an object tells of the object.
/// `lowered` is the text of the failure in lower case.
pub open spec fn existence(head: Result<(), Seq<char>>, lowered: Seq<char>) -> Result<
    bool,
    ErrorView,
> {
    match head {
        Ok(_) => Ok(true),
        Err(text) => if says_missing(lowered) {
            Ok(false)
        } else {
            Err(ErrorView { kind: ErrorKind::R2Operation, detail: text })
        },
    }
}

/// The text of an outcome, for contracts.
pub open spec fn head_view(head: Result<(), String>) -> Result<(), Seq<char>> {
    match head {
        Ok(_) => Ok(()),
        Err(text) => Err(text@),
    }
}

/// The answer of [`R2Client::object_exists`], for contracts.
pub open spec fn existence_view(r: Result<bool, Error>) -> Result<bool, ErrorView> {
    match r {
        Ok(b) => Ok(b),
        Err(e) => Err(e@),
    }
}

/// The URL of the object `key` in `bucket` at `host`, marked with the second
/// at which it expires, counted from the Unix epoch.
pub open spec fn direct_url_text(
    host: Seq<char>,
    bucket: Seq<char>,
    key: Seq<char>,
    expires_at: nat,
) -> Seq<char> {
    object_address(host, bucket, key) + "?expires="@ + decimal_text(expires_at)
}

/// The error for a URL whose expiry time cannot be counted in 64 bits.
pub open spec fn direct_url_overflow() -> ErrorView {
    ErrorView { kind: ErrorKind::R2Operation, detail: "Expiration time is out of range"@ }
}

/// What [`direct_url_at`] returns: the first of the failures that applies,
/// the endpoint's, then the clock's, then an expiry time that cannot be
/// counted in 64 bits; or else the URL that expires `expires_secs` seconds
/// after `now`.
pub open spec fn direct_url_result(
    host: Result<Option<Seq<char>>, Seq<char>>,
    bucket: Seq<char>,
    key: Seq<char>,
    expires_secs: u64,
    now: Result<u64, Seq<char>>,
) -> Result<Seq<char>, ErrorView> {
    match host {
        Err(why) => Err(
            ErrorView { kind: ErrorKind::InvalidConfig, detail: "Invalid endpoint URL: "@ + why },
        ),
        Ok(None) => Err(
            ErrorView { kind: ErrorKind::InvalidConfig, detail: "Endpoint has no host"@ },
        ),
        Ok(Some(h)) => match now {
            Err(why) => Err(
                ErrorView { kind: ErrorKind::R2Operation, detail: "Time error: "@ + why },
            ),
            Ok(t) => if t + expires_secs > u64::MAX {
                Err(direct_url_overflow())
            } else {
                Ok(direct_url_text(h, bucket, key, (t + expires_secs) as nat))
            },
        },
    }
}

/// What [`R2Client::generate_presigned_url`] may return for an endpoint: the
/// endpoint's failure where it has one; else what [`direct_url_result`] gives
/// for some reading of the clock.
pub open spec fn direct_url_outcome(
    endpoint: Seq<char>,
    bucket: Seq<char>,
    key: Seq<char>,
    expires_secs: u64,
    r: Result<Seq<char>, ErrorView>,
) -> bool {
    let host = parsed_host(endpoint);
    if host is Ok && host->Ok_0 is Some {
        exists|now: Result<u64, Seq<char>>|
            r == #[trigger] direct_url_result(host, bucket, key, expires_secs, now)
    } else {
        r == direct_url_result(host, bucket, key, expires_secs, Ok(0))
    }
}

/// The URL of an object for what the endpoint parsed to and what the clock
/// said. `host` is the outcome of parsing the endpoint, `now` the seconds
/// since the Unix epoch or the clock's error. An expiry time that cannot be
/// counted in 64 bits is an error.
pub fn direct_url_at(
    host: Result<Option<String>, String>,
    bucket: &str,
    key: &str,
    expires_secs: u64,
    now: Result<u64, String>,
) -> (r: Result<String, Error>)
    ensures
        url_view(r) == direct_url_result(
            host_view(host),
            bucket@,
            key@,
            expires_secs,
            clock_view(now),
        ),
{
    match host {
        Err(why) => {
            let mut text = String::from_str("Invalid endpoint URL: ");
            text.append(why.as_str());
            Err(Error::InvalidConfig(text))
        },
        Ok(None) => Err(Error::InvalidConfig(String::from_str("Endpoint has no host"))),
        Ok(Some(h)) => match now {
            Err(why) => {
                let mut text = String::from_str("Time error: ");
                text.append(why.as_str());
                Err(Error::R2Operation(text))
            },
            Ok(t) => {
                if t > u64::MAX - expires_secs {
                    return Err(
                        Error::R2Operation(String::from_str("Expiration time is out of range")),
                    );
                }
                let mut url = String::from_str("https://");
                url.append(h.as_str());
                url.append("/");
                url.append(bucket);
                url.append("/");
                url.append(key);
                url.append("?expires=");
                push_decimal(&mut url, t + expires_secs);
                Ok(url)
            },
        },
    }
}

/// A bucket at an endpoint, and the access key that opens it.
pub struct R2Client {
    bucket: String,
    endpoint: String,
    access_key_id: String,
    secret_access_key: String,
}

/// An [`R2Client`] in contracts.
pub struct R2ClientView {
    pub bucket: Seq<char>,
    pub endpoint: Seq<char>,
    pub access_key_id: Seq<char>,
    pub secret_access_key: Seq<char>,
}

impl View for R2Client {
    type V = R2ClientView;

    closed spec fn view(&self) -> R2ClientView {
        R2ClientView {
            bucket: self.bucket@,
            endpoint: self.endpoint@,
            access_key_id: self.access_key_id@,
            secret_access_key: self.secret_access_key@,
        }
    }
}

impl R2Client {
    /// A client for `bucket` at `endpoint`, opened by the access key. Always
    /// succeeds.
    pub fn new(
        endpoint: String,
        access_key_id: String,
        secret_access_key: String,
        bucket: String,
    ) -> (r: Result<Self, Error>)
        ensures
            r is Ok,
            r->Ok_0@ == (R2ClientView {
                bucket: bucket@,
                endpoint: endpoint@,
                access_key_id: access_key_id@,
                secret_access_key: secret_access_key@,
            }),
    {
        Ok(R2Client { bucket, endpoint, access_key_id, secret_access_key })
    }

    /// The name of the bucket.
    pub fn bucket(&self) -> (r: &str)
        ensures
            r@ == self@.bucket,
    {
        self.bucket.as_str()
    }

    /// The endpoint of the store.
    pub fn endpoint(&self) -> (r: &str)
        ensures
            r@ == self@.endpoint,
    {
        self.endpoint.as_str()
    }

    /// The id of the access key.
    pub fn access_key_id(&self) -> (r: &str)
        ensures
            r@ == self@.access_key_id,
    {
        self.access_key_id.as_str()
    }

    /// The secret of the access key.
    pub fn secret_access_key(&self) -> (r: &str)
        ensures
            r@ == self@.secret_access_key,
    {
        self.secret_access_key.as_str()
    }

    /// The source named in a request to copy the object `source_key` within
    /// the bucket: the bucket, a slash, and the key.
    pub fn copy_source(&self, source_key: &str) -> (r: String)
        ensures
            r@ == self@.bucket + "/"@ + source_key@,
    {
        concat3(self.bucket.as_str(), "/", source_key)
    }

    /// What the store's answer to the question about an object tells, given
    /// the text of the failure in lower case: an answer means the object is
    /// there; a failure that says it is missing means it is not; any other
    /// failure is reported with its text.
    pub fn object_exists_given(head: Result<(), String>, lowered: &str) -> (r: Result<bool, Error>)
        ensures
            existence_view(r) == existence(head_view(head), lowered@),
    {
        match head {
            Ok(_) => Ok(true),
            Err(text) => {
                if failure_says_missing(lowered) {
                    Ok(false)
                } else {
                    Err(Error::R2Operation(text))
                }
            },
        }
    }

    /// Whether an object is there, by the store's answer to the question
    /// about it: `head` is `Ok` where the store answered, else the text of the
    /// failure. The text is searched in lower case.
    pub fn object_exists(&self, head: Result<(), String>) -> (r: Result<bool, Error>)
        ensures
            existence_view(r) == existence(
                head_view(head),
                match head {
                    Ok(_) => Seq::empty(),
                    Err(text) => lowercase_of(text@),
                },
            ),
    {
        let lowered = match &head {
            Ok(_) => String::new(),
            Err(text) => to_lowercase(text.as_str()),
        };
        Self::object_exists_given(head, lowered.as_str())
    }

    /// The id of the session in the store's answer to the request for one, an
    /// error where the answer holds none.
    pub fn create_multipart_upload(&self, answer: Option<String>) -> (r: Result<String, Error>)
        ensures
            match answer {
                Some(id) => r == Ok::<String, Error>(id),
                None => r is Err && r->Err_0@ == no_upload_id(),
            },
    {
        match answer {
            Some(id) => Ok(id),
            None => Err(Error::MultipartUpload(String::from_str("No upload ID returned"))),
        }
    }

    /// The part with this number and the tag in the store's answer to it, an
    /// error where the answer holds none.
    pub fn upload_part(&self, part_number: i32, answer: Option<String>) -> (r: Result<
        CompletedPart,
        Error,
    >)
        ensures
            match answer {
                Some(etag) => r is Ok && r->Ok_0@ == (PartView {
                    part_number: part_number as int,
                    etag: etag@,
                }),
                None => r is Err && r->Err_0@ == no_etag(),
            },
    {
        match answer {
            Some(etag) => Ok(CompletedPart { part_number, etag }),
            None => Err(Error::MultipartUpload(String::from_str("No ETag returned for part"))),
        }
    }

    /// A URL of the object `key`, marked to expire `expires_in` from now on.
    /// It is the object's address with the expiry time as query text; no
    /// signature is computed.
    ///
    /// Fails where the endpoint is no URI or has no host, where the clock
    /// stands before the Unix epoch, and where the expiry time cannot be
    /// counted in 64 bits. The clock is read only for an endpoint with a host.
    pub fn generate_presigned_url(&self, key: &str, expires_in: Duration) -> (r: Result<
        String,
        Error,
    >)
        ensures
            direct_url_outcome(
                self@.endpoint,
                self@.bucket,
                key@,
                duration_secs(expires_in),
                url_view(r),
            ),
    {
        let expires_secs = expires_in.as_secs();
        let host = endpoint_host(self.endpoint.as_str());
        let needs_clock = match &host {
            Ok(Some(_)) => true,
            _ => false,
        };
        if !needs_clock {
            return direct_url_at(host, self.bucket.as_str(), key, expires_secs, Ok(0));
        }
        let now = match time_since_epoch() {
            Ok(elapsed) => Ok(elapsed.as_secs()),
            Err(why) => Err(why),
        };
        let ghost seen = clock_view(now);
        let r = direct_url_at(host, self.bucket.as_str(), key, expires_secs, now);
        assert(url_view(r) == direct_url_result(
            parsed_host(self@.endpoint),
            self@.bucket,
            key@,
            expires_secs,
            seen,
        ));
        r
    }
}

} // verus!
