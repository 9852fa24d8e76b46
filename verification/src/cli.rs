//! What the commands of the program decide and how they word what they show.
//!
//! Reading the configuration, talking to the services and printing is the
//! caller's work.

use crate::client::{requires_multipart_upload, MULTIPART_THRESHOLD};
use crate::cloudflare::{ErrorDocument, IndexDocument, WebsiteConfiguration};
use crate::config::{AdvancedConfig, CloudflareConfig};
use crate::multipart::MultipartUploadConfig;
use crate::presigned::{duration_secs, PresignedMethod, PresignedUrlConfig};
use crate::text::{concat2, lowercase_of, str_eq, to_lowercase};
use std::fmt::Write;
use std::time::Duration;
use vstd::prelude::*;
use vstd::string::*;
use vstd::utf8::*;

verus! {

/// An RFC 3339 date and time written under a `strftime` pattern, in the
/// date's own offset, as `chrono` reads and writes it; `None` where the text
/// is no RFC 3339 date and time, or the pattern cannot be written.
pub uninterp spec fn rfc3339_formatted(iso: Seq<char>, pattern: Seq<char>) -> Option<Seq<char>>;

/// The pattern under which a date is shown: the day and the minute.
pub open spec fn minute_pattern() -> Seq<char> {
    "%Y-%m-%d %H:%M"@
}

/// The minute of an RFC 3339 date and time, written as `YYYY-MM-DD HH:MM` in
/// the date's own offset; `None` where the text is no RFC 3339 date and time.
pub open spec fn rfc3339_minute(iso: Seq<char>) -> Option<Seq<char>> {
    rfc3339_formatted(iso, minute_pattern())
}

/// The text of an optional string, for contracts.
pub open spec fn option_text(text: Option<String>) -> Option<Seq<char>> {
    match text {
        Some(t) => Some(t@),
        None => None,
    }
}

/// Reads `iso` with `chrono::DateTime::parse_from_rfc3339` and writes it with
/// `chrono::DateTime::format` under `pattern`; `None` where the text does not
/// parse or the writing fails. The grammar, the calendar and the patterns are
/// not spelled out here: the outcome is only given a name, as a function of
/// the two texts.
#[verifier::external_body]
pub(crate) fn format_rfc3339(iso: &str, pattern: &str) -> (r: Option<String>)
    ensures
        option_text(r) == rfc3339_formatted(iso@, pattern@),
{
    match chrono::DateTime::parse_from_rfc3339(iso) {
        Ok(date) => {
            let mut out = String::new();
            match write!(out, "{}", date.format(pattern)) {
                Ok(_) => Some(out),
                Err(_) => None,
            }
        },
        Err(_) => None,
    }
}

/// The media type that `mime_guess` knows first for a file extension,
/// `application/octet-stream` where it knows none.
pub uninterp spec fn mime_of_extension(extension: Seq<char>) -> Seq<char>;

/// Looks `extension` up with `mime_guess::from_ext` and takes
/// `first_or_octet_stream`, written as text. The table of extensions is not
/// spelled out here: the outcome is only given a name, as a function of the
/// extension.
#[verifier::external_body]
pub(crate) fn media_type_of(extension: &str) -> (r: String)
    ensures
        r@ == mime_of_extension(extension@),
{
    mime_guess::from_ext(extension).first_or_octet_stream().to_string()
}

/// How the status of a token is shown, given the status in lower case: the
/// three known statuses get a mark and a capital, any other is shown as it is.
pub open spec fn status_label(status: Seq<char>, lowered: Seq<char>) -> Seq<char> {
    if lowered == "active"@ {
        "✅ Active"@
    } else if lowered == "revoked"@ {
        "❌ Revoked"@
    } else if lowered == "expired"@ {
        "⏰ Expired"@
    } else {
        status
    }
}

/// How the status of a token is shown, given the status in lower case.
pub fn format_status_given(status: &str, lowered: &str) -> (r: String)
    ensures
        r@ == status_label(status@, lowered@),
{
    if str_eq(lowered, "active") {
        String::from_str("✅ Active")
    } else if str_eq(lowered, "revoked") {
        String::from_str("❌ Revoked")
    } else if str_eq(lowered, "expired") {
        String::from_str("⏰ Expired")
    } else {
        String::from_str(status)
    }
}

/// How the status of a token is shown. Capitals in the status do not matter.
pub fn format_status(status: &str) -> (r: String)
    ensures
        r@ == status_label(status@, lowercase_of(status@)),
{
    let lowered = to_lowercase(status);
    format_status_given(status, lowered.as_str())
}

/// The first `n` bytes of a text, as text.
pub open spec fn byte_prefix(s: Seq<char>, n: int) -> Seq<char> {
    decode_utf8(encode_utf8(s).subrange(0, n))
}

/// Whether a text can be cut after its first `n` bytes: it has that many, and
/// no character lies across the cut.
pub open spec fn can_cut_at(s: Seq<char>, n: int) -> bool {
    n <= encode_utf8(s).len() && is_char_boundary(encode_utf8(s), n)
}

fn first_bytes(s: &str, n: usize) -> (r: &str)
    requires
        can_cut_at(s@, n as int),
    ensures
        r@ == byte_prefix(s@, n as int),
{
    let (head, _) = s.split_at(n);
    proof {
        encode_utf8_decode_utf8(head@);
    }
    head
}

/// How an id is shown: one of more than 8 bytes is cut after the eighth and
/// followed by three dots, a shorter one is shown whole.
pub open spec fn short_id(id: Seq<char>) -> Seq<char> {
    if encode_utf8(id).len() > 8 {
        byte_prefix(id, 8) + "..."@
    } else {
        id
    }
}

/// How an id is shown. An id of more than 8 bytes must allow the cut after
/// the eighth.
pub fn format_id(id: &str) -> (r: String)
    requires
        encode_utf8(id@).len() > 8 ==> can_cut_at(id@, 8),
    ensures
        r@ == short_id(id@),
{
    if id.as_bytes().len() > 8 {
        concat2(first_bytes(id, 8), "...")
    } else {
        String::from_str(id)
    }
}

/// The first 8 bytes of an account id, which is what is shown of it.
pub fn account_id_prefix(account_id: &str) -> (r: &str)
    requires
        can_cut_at(account_id@, 8),
    ensures
        r@ == byte_prefix(account_id@, 8),
{
    first_bytes(account_id, 8)
}

/// How a date is shown, given its minute where it is an RFC 3339 date: the
/// minute, else the text as it is.
pub fn format_date_given(iso_date: &str, minute: Option<String>) -> (r: String)
    ensures
        r@ == (match minute {
            Some(m) => m@,
            None => iso_date@,
        }),
{
    match minute {
        Some(m) => m,
        None => String::from_str(iso_date),
    }
}

/// How a date is shown: an RFC 3339 date and time as `YYYY-MM-DD HH:MM`, any
/// other text as it is.
pub fn format_date(iso_date: &str) -> (r: String)
    ensures
        r@ == (match rfc3339_minute(iso_date@) {
            Some(m) => m,
            None => iso_date@,
        }),
{
    let minute = format_rfc3339(iso_date, "%Y-%m-%d %H:%M");
    format_date_given(iso_date, minute)
}

/// When a token expires, as it is shown: the date as [`format_date`] shows
/// it, `Never` for a token that does not expire.
pub fn format_expiry(expires_on: Option<&str>) -> (r: String)
    ensures
        r@ == (match expires_on {
            Some(date) => match rfc3339_minute(date@) {
                Some(m) => m,
                None => date@,
            },
            None => "Never"@,
        }),
{
    match expires_on {
        Some(date) => format_date(date),
        None => String::from_str("Never"),
    }
}

/// The content type of a file by its extension: the media type known for the
/// extension, `application/octet-stream` for a file without one.
pub fn content_type_for(extension: Option<&str>) -> (r: String)
    ensures
        r@ == (match extension {
            Some(e) => mime_of_extension(e@),
            None => "application/octet-stream"@,
        }),
{
    match extension {
        Some(e) => media_type_of(e),
        None => String::from_str("application/octet-stream"),
    }
}

/// The access key to use for the object store, or why there is none.
#[derive(Debug)]
pub enum KeySelection {
    /// These are the keys.
    Keys { access_key_id: String, secret_access_key: String },
    /// An API token is configured: the keys are not looked at.
    TokenConfigured,
    /// No access key id is configured.
    NoAccessKeyId,
    /// No secret access key is configured.
    NoSecretAccessKey,
}

/// The access key to use for the object store: none while an API token is
/// configured; else both halves of the key, the missing half named where one
/// is missing, the id first.
pub fn select_access_keys(cloudflare: &CloudflareConfig) -> (r: KeySelection)
    ensures
        match r {
            KeySelection::Keys { access_key_id, secret_access_key } => {
                &&& cloudflare.api_token is None
                &&& cloudflare.access_key_id == Some(access_key_id)
                &&& cloudflare.secret_access_key == Some(secret_access_key)
            },
            KeySelection::TokenConfigured => cloudflare.api_token is Some,
            KeySelection::NoAccessKeyId => cloudflare.api_token is None
                && cloudflare.access_key_id is None,
            KeySelection::NoSecretAccessKey => cloudflare.api_token is None
                && cloudflare.access_key_id is Some && cloudflare.secret_access_key is None,
        },
{
    if cloudflare.api_token.is_some() {
        return KeySelection::TokenConfigured;
    }
    match &cloudflare.access_key_id {
        None => KeySelection::NoAccessKeyId,
        Some(id) => match &cloudflare.secret_access_key {
            None => KeySelection::NoSecretAccessKey,
            Some(secret) => KeySelection::Keys {
                access_key_id: id.clone(),
                secret_access_key: secret.clone(),
            },
        },
    }
}

/// How the way to authenticate is named: `API Token` where a token is
/// configured, else `Access Keys`.
pub fn auth_method_label(cloudflare: &CloudflareConfig) -> (r: &'static str)
    ensures
        r@ == (if cloudflare.api_token is Some {
            "API Token"@
        } else {
            "Access Keys"@
        }),
{
    if cloudflare.api_token.is_some() {
        "API Token"
    } else {
        "Access Keys"
    }
}

/// Whether the bucket `name` may be deleted: any but the default bucket may.
pub fn may_delete_bucket(name: &str, default_bucket: &str) -> (r: bool)
    ensures
        r == (name@ != default_bucket@),
{
    !str_eq(name, default_bucket)
}

/// The number of bytes in one MiB.
pub const MIB: usize = 1048576;

/// How a file is sent.
#[derive(Debug)]
pub enum UploadPlan {
    /// In one request.
    Single,
    /// In parts, cut as the configuration says.
    Multipart(MultipartUploadConfig),
}

/// The tuning that applies: what is configured, else the defaults.
pub open spec fn effective_advanced(advanced: Option<AdvancedConfig>) -> (usize, usize) {
    match advanced {
        Some(a) => (a.multipart_chunk_size_mb, a.max_concurrent_uploads),
        None => (100, 5),
    }
}

/// How a file of `file_size` bytes is sent: in parts where that is asked for
/// or the file is larger than 100 MiB, with parts of the configured number of
/// MiB; else in one request.
pub fn upload_plan(file_size: u64, force_multipart: bool, advanced: Option<AdvancedConfig>) -> (r:
    UploadPlan)
    requires
        force_multipart || file_size > MULTIPART_THRESHOLD ==> effective_advanced(advanced).0 * MIB
            <= usize::MAX,
    ensures
        match r {
            UploadPlan::Multipart(config) => {
                &&& force_multipart || file_size > MULTIPART_THRESHOLD
                &&& config.chunk_size == effective_advanced(advanced).0 * MIB
                &&& config.concurrent_parts == effective_advanced(advanced).1
            },
            UploadPlan::Single => !force_multipart && file_size <= MULTIPART_THRESHOLD,
        },
{
    if force_multipart || requires_multipart_upload(file_size) {
        let tuning = match advanced {
            Some(a) => a,
            None => AdvancedConfig::default(),
        };
        UploadPlan::Multipart(
            MultipartUploadConfig {
                chunk_size: tuning.multipart_chunk_size_mb * MIB,
                concurrent_parts: tuning.max_concurrent_uploads,
            },
        )
    } else {
        UploadPlan::Single
    }
}

/// The method that a word names, given the word in lower case: `get`, `put`
/// or `delete`.
pub open spec fn method_named(lowered: Seq<char>) -> Option<PresignedMethod> {
    if lowered == "get"@ {
        Some(PresignedMethod::Get)
    } else if lowered == "put"@ {
        Some(PresignedMethod::Put)
    } else if lowered == "delete"@ {
        Some(PresignedMethod::Delete)
    } else {
        None
    }
}

/// The method that a word in lower case names.
pub fn presigned_method_given(lowered: &str) -> (r: Option<PresignedMethod>)
    ensures
        r == method_named(lowered@),
{
    if str_eq(lowered, "get") {
        Some(PresignedMethod::Get)
    } else if str_eq(lowered, "put") {
        Some(PresignedMethod::Put)
    } else if str_eq(lowered, "delete") {
        Some(PresignedMethod::Delete)
    } else {
        None
    }
}

/// The method that a word names. Capitals do not matter.
pub fn parse_presigned_method(method: &str) -> (r: Option<PresignedMethod>)
    ensures
        r == method_named(lowercase_of(method@)),
{
    let lowered = to_lowercase(method);
    presigned_method_given(lowered.as_str())
}

/// What is asked of a presigned URL on the command line: the method, the key,
/// the seconds it is good for, and the content type where one is given.
pub fn presigned_request(
    method: PresignedMethod,
    key: &str,
    expires: u64,
    content_type: Option<&str>,
) -> (r: PresignedUrlConfig)
    ensures
        r.method == method,
        r.key@ == key@,
        duration_secs(r.expires_in) == expires,
        match content_type {
            Some(t) => r.content_type is Some && r.content_type->Some_0@ == t@,
            None => r.content_type is None,
        },
{
    let config = PresignedUrlConfig::new(
        method,
        String::from_str(key),
        Duration::from_secs(expires),
    );
    match content_type {
        Some(t) => config.with_content_type(String::from_str(t)),
        None => config,
    }
}

/// A shell that completions can be written for.
#[derive(Debug, Clone, Copy, PartialEq, Eq, Structural)]
pub enum ShellKind {
    Bash,
    Zsh,
    Fish,
    Elvish,
    PowerShell,
}

/// The shell that a word names: `bash`, `zsh`, `fish`, `elvish`, and
/// `powershell` or `pwsh`.
pub open spec fn shell_named(shell: Seq<char>) -> Option<ShellKind> {
    if shell == "bash"@ {
        Some(ShellKind::Bash)
    } else if shell == "zsh"@ {
        Some(ShellKind::Zsh)
    } else if shell == "fish"@ {
        Some(ShellKind::Fish)
    } else if shell == "elvish"@ {
        Some(ShellKind::Elvish)
    } else if shell == "powershell"@ || shell == "pwsh"@ {
        Some(ShellKind::PowerShell)
    } else {
        None
    }
}

/// The shell that a word names.
pub fn parse_shell(shell: &str) -> (r: Option<ShellKind>)
    ensures
        r == shell_named(shell@),
{
    if str_eq(shell, "bash") {
        Some(ShellKind::Bash)
    } else if str_eq(shell, "zsh") {
        Some(ShellKind::Zsh)
    } else if str_eq(shell, "fish") {
        Some(ShellKind::Fish)
    } else if str_eq(shell, "elvish") {
        Some(ShellKind::Elvish)
    } else if str_eq(shell, "powershell") || str_eq(shell, "pwsh") {
        Some(ShellKind::PowerShell)
    } else {
        None
    }
}

/// Where the settings to apply come from.
#[derive(Debug)]
pub enum SettingsSource {
    /// The wizard asks for them.
    Wizard,
    /// They are read from the file at this path.
    File(String),
}

/// Where the settings to apply come from: the wizard where the interactive
/// mode is asked for, else the file named; none where neither is given.
pub fn settings_source(interactive: bool, file: Option<&str>) -> (r: Option<SettingsSource>)
    ensures
        match r {
            Some(SettingsSource::Wizard) => interactive,
            Some(SettingsSource::File(path)) => !interactive && file is Some && path@
                == file->Some_0@,
            None => !interactive && file is None,
        },
{
    if interactive {
        Some(SettingsSource::Wizard)
    } else {
        match file {
            Some(path) => Some(SettingsSource::File(String::from_str(path))),
            None => None,
        }
    }
}

/// The text given, else the default.
pub open spec fn text_or(text: Option<&str>, default: Seq<char>) -> Seq<char> {
    match text {
        Some(t) => t@,
        None => default,
    }
}

/// The website settings to apply: the index document, `index.html` where none
/// is named, and the error document, `404.html` where none is named.
pub fn website_settings(index: Option<&str>, error: Option<&str>) -> (r: WebsiteConfiguration)
    ensures
        r.index_document is Some,
        r.index_document->Some_0.suffix@ == text_or(index, "index.html"@),
        r.error_document is Some,
        r.error_document->Some_0.key@ == text_or(error, "404.html"@),
{
    let suffix = match index {
        Some(t) => String::from_str(t),
        None => String::from_str("index.html"),
    };
    let key = match error {
        Some(t) => String::from_str(t),
        None => String::from_str("404.html"),
    };
    WebsiteConfiguration {
        index_document: Some(IndexDocument { suffix }),
        error_document: Some(ErrorDocument { key }),
    }
}

/// The address under which a bucket is shown as a website.
pub fn public_url(bucket_name: &str, account_id: &str) -> (r: String)
    ensures
        r@ == "https://"@ + bucket_name@ + "."@ + account_id@,
{
    let mut url = String::from_str("https://");
    url.append(bucket_name);
    url.append(".");
    url.append(account_id);
    url
}

/// The name proposed for a new token on the day written as `date`.
pub fn default_token_name(date: &str) -> (r: String)
    ensures
        r@ == "r2pilot-"@ + date@,
{
    concat2("r2pilot-", date)
}

} // verus!
