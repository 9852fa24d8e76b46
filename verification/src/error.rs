//! The error type of the library and the message each error shows.

use vstd::prelude::*;
use vstd::string::*;

verus! {

/// Which error an [`Error`] is, without its text.
#[derive(Clone, Copy, Debug, PartialEq, Eq, Structural)]
pub enum ErrorKind {
    Config,
    ConfigNotFound,
    InvalidConfig,
    CloudflareApi,
    Authentication,
    R2Operation,
    Network,
    Io,
    Serialization,
    Deserialization,
    HttpClient,
    Json,
    AwsSdk,
    NotFound,
    InvalidInput,
    PermissionDenied,
    Timeout,
    Cancelled,
    Other,
    MultipartUpload,
    PresignedUrlConfig,
    CorsConfig,
    LifecycleRule,
    BucketSettings,
}

/// What an [`Error`] stands for in contracts: its kind and the text it carries.
/// `Timeout` and `Cancelled` carry no text: their `detail` is empty.
pub struct ErrorView {
    pub kind: ErrorKind,
    pub detail: Seq<char>,
}

/// The failures this library reports.
#[derive(Debug)]
pub enum Error {
    /// The configuration cannot be used.
    Config(String),
    /// No configuration file at the path given.
    ConfigNotFound(String),
    /// The configuration file cannot be read as a configuration.
    InvalidConfig(String),
    /// The Cloudflare API answered with an error.
    CloudflareApi(String),
    /// The credentials were refused.
    Authentication(String),
    /// An operation on the object store failed.
    R2Operation(String),
    /// The network failed.
    Network(String),
    /// Reading or writing local data failed.
    Io(String),
    /// A value could not be written as TOML.
    Serialization(String),
    /// TOML text could not be read as a value.
    Deserialization(String),
    /// The HTTP request could not be made.
    HttpClient(String),
    /// JSON text could not be read or written.
    Json(String),
    /// The S3 client reported an error.
    AwsSdk(String),
    /// The thing asked for does not exist.
    NotFound(String),
    /// A value given by the user is not acceptable.
    InvalidInput(String),
    /// The credentials do not allow the operation.
    PermissionDenied(String),
    /// The operation took too long.
    Timeout,
    /// The user cancelled the operation.
    Cancelled,
    /// Any other failure; the text is the whole message.
    Other(String),
    /// A multipart upload went wrong.
    MultipartUpload(String),
    /// A presigned URL cannot be made from the values given.
    PresignedUrlConfig(String),
    /// A CORS configuration is not acceptable.
    CorsConfig(String),
    /// A lifecycle rule is not acceptable.
    LifecycleRule(String),
    /// Bucket settings are not acceptable.
    BucketSettings(String),
}

impl View for Error {
    type V = ErrorView;

    open spec fn view(&self) -> ErrorView {
        match self {
            Error::Config(text) => ErrorView { kind: ErrorKind::Config, detail: text@ },
            Error::ConfigNotFound(text) => ErrorView {
                kind: ErrorKind::ConfigNotFound,
                detail: text@,
            },
            Error::InvalidConfig(text) => ErrorView {
                kind: ErrorKind::InvalidConfig,
                detail: text@,
            },
            Error::CloudflareApi(text) => ErrorView {
                kind: ErrorKind::CloudflareApi,
                detail: text@,
            },
            Error::Authentication(text) => ErrorView {
                kind: ErrorKind::Authentication,
                detail: text@,
            },
            Error::R2Operation(text) => ErrorView { kind: ErrorKind::R2Operation, detail: text@ },
            Error::Network(text) => ErrorView { kind: ErrorKind::Network, detail: text@ },
            Error::Io(text) => ErrorView { kind: ErrorKind::Io, detail: text@ },
            Error::Serialization(text) => ErrorView {
                kind: ErrorKind::Serialization,
                detail: text@,
            },
            Error::Deserialization(text) => ErrorView {
                kind: ErrorKind::Deserialization,
                detail: text@,
            },
            Error::HttpClient(text) => ErrorView { kind: ErrorKind::HttpClient, detail: text@ },
            Error::Json(text) => ErrorView { kind: ErrorKind::Json, detail: text@ },
            Error::AwsSdk(text) => ErrorView { kind: ErrorKind::AwsSdk, detail: text@ },
            Error::NotFound(text) => ErrorView { kind: ErrorKind::NotFound, detail: text@ },
            Error::InvalidInput(text) => ErrorView { kind: ErrorKind::InvalidInput, detail: text@ },
            Error::PermissionDenied(text) => ErrorView {
                kind: ErrorKind::PermissionDenied,
                detail: text@,
            },
            Error::Timeout => ErrorView { kind: ErrorKind::Timeout, detail: Seq::empty() },
            Error::Cancelled => ErrorView { kind: ErrorKind::Cancelled, detail: Seq::empty() },
            Error::Other(text) => ErrorView { kind: ErrorKind::Other, detail: text@ },
            Error::MultipartUpload(text) => ErrorView {
                kind: ErrorKind::MultipartUpload,
                detail: text@,
            },
            Error::PresignedUrlConfig(text) => ErrorView {
                kind: ErrorKind::PresignedUrlConfig,
                detail: text@,
            },
            Error::CorsConfig(text) => ErrorView { kind: ErrorKind::CorsConfig, detail: text@ },
            Error::LifecycleRule(text) => ErrorView {
                kind: ErrorKind::LifecycleRule,
                detail: text@,
            },
            Error::BucketSettings(text) => ErrorView {
                kind: ErrorKind::BucketSettings,
                detail: text@,
            },
        }
    }
}

/// The words that open the message of an error of the given kind.
pub open spec fn label(kind: ErrorKind) -> Seq<char> {
    match kind {
        ErrorKind::Config => "Configuration error: "@,
        ErrorKind::ConfigNotFound => "Configuration file not found: "@,
        ErrorKind::InvalidConfig => "Invalid configuration format: "@,
        ErrorKind::CloudflareApi => "Cloudflare API error: "@,
        ErrorKind::Authentication => "Authentication failed: "@,
        ErrorKind::R2Operation => "R2 operation failed: "@,
        ErrorKind::Network => "Network error: "@,
        ErrorKind::Io => "IO error: "@,
        ErrorKind::Serialization => "Serialization error: "@,
        ErrorKind::Deserialization => "Deserialization error: "@,
        ErrorKind::HttpClient => "HTTP client error: "@,
        ErrorKind::Json => "JSON error: "@,
        ErrorKind::AwsSdk => "AWS SDK error: "@,
        ErrorKind::NotFound => "Not found: "@,
        ErrorKind::InvalidInput => "Invalid input: "@,
        ErrorKind::PermissionDenied => "Permission denied: "@,
        ErrorKind::Timeout => "Operation timed out"@,
        ErrorKind::Cancelled => "Operation cancelled"@,
        ErrorKind::Other => ""@,
        ErrorKind::MultipartUpload => "Multipart upload error: "@,
        ErrorKind::PresignedUrlConfig => "Invalid presigned URL configuration: "@,
        ErrorKind::CorsConfig => "CORS configuration error: "@,
        ErrorKind::LifecycleRule => "Lifecycle rule error: "@,
        ErrorKind::BucketSettings => "Bucket settings error: "@,
    }
}

impl ErrorView {
    /// The message shown for the error: the label of its kind, then its text.
    pub open spec fn message(self) -> Seq<char> {
        label(self.kind) + self.detail
    }
}

fn labelled(label: &str, detail: &String) -> (r: String)
    ensures
        r@ == label@ + detail@,
{
    let mut out = String::from_str(label);
    out.append(detail.as_str());
    out
}

impl Error {
    /// Which error this is.
    pub fn kind(&self) -> (k: ErrorKind)
        ensures
            k == self@.kind,
    {
        match self {
            Error::Config(_) => ErrorKind::Config,
            Error::ConfigNotFound(_) => ErrorKind::ConfigNotFound,
            Error::InvalidConfig(_) => ErrorKind::InvalidConfig,
            Error::CloudflareApi(_) => ErrorKind::CloudflareApi,
            Error::Authentication(_) => ErrorKind::Authentication,
            Error::R2Operation(_) => ErrorKind::R2Operation,
            Error::Network(_) => ErrorKind::Network,
            Error::Io(_) => ErrorKind::Io,
            Error::Serialization(_) => ErrorKind::Serialization,
            Error::Deserialization(_) => ErrorKind::Deserialization,
            Error::HttpClient(_) => ErrorKind::HttpClient,
            Error::Json(_) => ErrorKind::Json,
            Error::AwsSdk(_) => ErrorKind::AwsSdk,
            Error::NotFound(_) => ErrorKind::NotFound,
            Error::InvalidInput(_) => ErrorKind::InvalidInput,
            Error::PermissionDenied(_) => ErrorKind::PermissionDenied,
            Error::Timeout => ErrorKind::Timeout,
            Error::Cancelled => ErrorKind::Cancelled,
            Error::Other(_) => ErrorKind::Other,
            Error::MultipartUpload(_) => ErrorKind::MultipartUpload,
            Error::PresignedUrlConfig(_) => ErrorKind::PresignedUrlConfig,
            Error::CorsConfig(_) => ErrorKind::CorsConfig,
            Error::LifecycleRule(_) => ErrorKind::LifecycleRule,
            Error::BucketSettings(_) => ErrorKind::BucketSettings,
        }
    }

    /// The message shown to the user.
    pub fn to_string(&self) -> (r: String)
        ensures
            r@ == self@.message(),
    {
        match self {
            Error::Config(text) => labelled("Configuration error: ", text),
            Error::ConfigNotFound(text) => labelled("Configuration file not found: ", text),
            Error::InvalidConfig(text) => labelled("Invalid configuration format: ", text),
            Error::CloudflareApi(text) => labelled("Cloudflare API error: ", text),
            Error::Authentication(text) => labelled("Authentication failed: ", text),
            Error::R2Operation(text) => labelled("R2 operation failed: ", text),
            Error::Network(text) => labelled("Network error: ", text),
            Error::Io(text) => labelled("IO error: ", text),
            Error::Serialization(text) => labelled("Serialization error: ", text),
            Error::Deserialization(text) => labelled("Deserialization error: ", text),
            Error::HttpClient(text) => labelled("HTTP client error: ", text),
            Error::Json(text) => labelled("JSON error: ", text),
            Error::AwsSdk(text) => labelled("AWS SDK error: ", text),
            Error::NotFound(text) => labelled("Not found: ", text),
            Error::InvalidInput(text) => labelled("Invalid input: ", text),
            Error::PermissionDenied(text) => labelled("Permission denied: ", text),
            Error::Timeout => {
                let out = String::from_str("Operation timed out");
                assert(out@ =~= self@.message());
                out
            },
            Error::Cancelled => {
                let out = String::from_str("Operation cancelled");
                assert(out@ =~= self@.message());
                out
            },
            Error::Other(text) => labelled("", text),
            Error::MultipartUpload(text) => labelled("Multipart upload error: ", text),
            Error::PresignedUrlConfig(text) => labelled(
                "Invalid presigned URL configuration: ",
                text,
            ),
            Error::CorsConfig(text) => labelled("CORS configuration error: ", text),
            Error::LifecycleRule(text) => labelled("Lifecycle rule error: ", text),
            Error::BucketSettings(text) => labelled("Bucket settings error: ", text),
        }
    }

    /// The error for a request that the HTTP client could not carry out, told by
    /// what the client says of the failure: a timeout is `Timeout`; else a failed
    /// connection is `Network`; else a fault in the request is `HttpClient`; any
    /// other failure is `Network`. `text` is the client's own message.
    pub fn from_transport_failure(
        is_timeout: bool,
        is_connect: bool,
        is_request: bool,
        text: String,
    ) -> (e: Error)
        ensures
            e@ == (if is_timeout {
                ErrorView { kind: ErrorKind::Timeout, detail: Seq::empty() }
            } else if is_connect {
                ErrorView { kind: ErrorKind::Network, detail: text@ }
            } else if is_request {
                ErrorView { kind: ErrorKind::HttpClient, detail: text@ }
            } else {
                ErrorView { kind: ErrorKind::Network, detail: text@ }
            }),
    {
        if is_timeout {
            Error::Timeout
        } else if is_connect {
            Error::Network(text)
        } else if is_request {
            Error::HttpClient(text)
        } else {
            Error::Network(text)
        }
    }
}

} // verus!
