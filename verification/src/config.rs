//! The configuration: its shape, its default values, where its file lives, and
//! the rules a configuration has to meet before it is used.

use crate::error::{Error, ErrorKind, ErrorView};
use crate::text::{concat2, concat3, decimal, decimal_text, starts_with};
use vstd::prelude::*;
use vstd::string::*;

verus! {

/// The longest default expiration a configuration may ask for: seven days, in seconds.
pub const MAX_DEFAULT_EXPIRATION: u64 = 604800;

/// The number of characters of a Cloudflare account id.
pub const ACCOUNT_ID_LENGTH: usize = 32;

/// The whole configuration file.
#[derive(Debug, Clone)]
pub struct ConfigFile {
    pub cloudflare: CloudflareConfig,
    pub r2: R2Config,
    pub advanced: Option<AdvancedConfig>,
    pub logging: Option<LoggingConfig>,
    pub output: Option<OutputConfig>,
}

/// The account and the credentials: either an API token, or an access key id
/// together with its secret.
#[derive(Debug, Clone)]
pub struct CloudflareConfig {
    pub account_id: String,
    pub endpoint: String,
    pub api_token: Option<String>,
    pub access_key_id: Option<String>,
    pub secret_access_key: Option<String>,
}

/// The object store: default bucket, region, and how long generated URLs live
/// by default, in seconds.
#[derive(Debug, Clone)]
pub struct R2Config {
    pub default_bucket: String,
    pub region: String,
    pub default_expiration: u64,
}

/// Optional tuning.
#[derive(Debug, Clone)]
pub struct AdvancedConfig {
    /// Seconds before a request is given up.
    pub timeout: u64,
    pub max_retries: u32,
    /// Milliseconds between two tries.
    pub retry_delay: u64,
    pub max_concurrent_uploads: usize,
    /// Size of one part of a multipart upload, in MiB.
    pub multipart_chunk_size_mb: usize,
}

/// Optional logging settings.
#[derive(Debug, Clone)]
pub struct LoggingConfig {
    pub level: String,
    pub format: String,
    pub file: Option<String>,
}

/// Optional output settings.
#[derive(Debug, Clone)]
pub struct OutputConfig {
    pub default_format: String,
    pub color: String,
}

/// The region used when the file names none.
pub fn default_region() -> (r: String)
    ensures
        r@ == "auto"@,
{
    String::from_str("auto")
}

/// The default life of a generated URL: two hours, in seconds.
pub fn default_expiration() -> (r: u64)
    ensures
        r == 7200,
{
    7200
}

/// The default request timeout, in seconds.
pub fn default_timeout() -> (r: u64)
    ensures
        r == 30,
{
    30
}

/// The default number of tries.
pub fn default_max_retries() -> (r: u32)
    ensures
        r == 3,
{
    3
}

/// The default pause between two tries: one second, in milliseconds.
pub fn default_retry_delay() -> (r: u64)
    ensures
        r == 1000,
{
    1000
}

/// The default number of uploads at a time.
pub fn default_max_concurrent() -> (r: usize)
    ensures
        r == 5,
{
    5
}

/// The default size of one part of a multipart upload, in MiB.
pub fn default_multipart_chunk_size() -> (r: usize)
    ensures
        r == 100,
{
    100
}

/// The default log level.
pub fn default_log_level() -> (r: String)
    ensures
        r@ == "info"@,
{
    String::from_str("info")
}

/// The default log format.
pub fn default_log_format() -> (r: String)
    ensures
        r@ == "pretty"@,
{
    String::from_str("pretty")
}

/// The default output format.
pub fn default_output_format() -> (r: String)
    ensures
        r@ == "table"@,
{
    String::from_str("table")
}

/// The default colour setting.
pub fn default_color() -> (r: String)
    ensures
        r@ == "auto"@,
{
    String::from_str("auto")
}

impl Default for AdvancedConfig {
    fn default() -> (r: Self)
        ensures
            r.timeout == 30,
            r.max_retries == 3,
            r.retry_delay == 1000,
            r.max_concurrent_uploads == 5,
            r.multipart_chunk_size_mb == 100,
    {
        AdvancedConfig {
            timeout: default_timeout(),
            max_retries: default_max_retries(),
            retry_delay: default_retry_delay(),
            max_concurrent_uploads: default_max_concurrent(),
            multipart_chunk_size_mb: default_multipart_chunk_size(),
        }
    }
}

/// `child` adjoined to the directory `base`, as paths with `/` between their
/// components: a `child` that starts at the root replaces `base`; otherwise a
/// `/` is put between the two unless `base` is empty or already ends in one.
pub open spec fn path_join(base: Seq<char>, child: Seq<char>) -> Seq<char> {
    if child.len() > 0 && child[0] == '/' {
        child
    } else if base.len() == 0 || base.last() == '/' {
        base + child
    } else {
        base + seq!['/'] + child
    }
}

/// `child` adjoined to the directory `base`.
pub fn join_path(base: &str, child: &str) -> (r: String)
    ensures
        r@ == path_join(base@, child@),
{
    proof {
        reveal_strlit("/");
    }
    assert("/"@ =~= seq!['/']);
    if starts_with(child, "/") {
        assert(child@.subrange(0, 1)[0] == '/');
        String::from_str(child)
    } else {
        assert(!(child@.len() > 0 && child@[0] == '/')) by {
            if child@.len() > 0 && child@[0] == '/' {
                assert(child@.subrange(0, 1) =~= seq!['/']);
            }
        }
        let n = base.unicode_len();
        if n == 0 || base.get_char(n - 1) == '/' {
            concat2(base, child)
        } else {
            concat3(base, "/", child)
        }
    }
}

/// The directory that holds the configuration, below the home directory `home`.
pub open spec fn config_dir_of(home: Seq<char>) -> Seq<char> {
    path_join(path_join(home, ".config"@), "r2pilot"@)
}

/// The words of the error for a user without a home directory.
pub open spec fn no_home_error() -> ErrorView {
    ErrorView { kind: ErrorKind::Config, detail: "Cannot determine home directory"@ }
}

/// The directory that holds the configuration: `.config/r2pilot` below the
/// user's home directory. `home` is that directory, `None` where the system
/// knows of none, which is an error. The directory is not created here.
pub fn get_config_dir(home: Option<&str>) -> (r: Result<String, Error>)
    ensures
        match home {
            Some(h) => r is Ok && r->Ok_0@ == config_dir_of(h@),
            None => r is Err && r->Err_0@ == no_home_error(),
        },
{
    match home {
        Some(h) => {
            let dot_config = join_path(h, ".config");
            Ok(join_path(dot_config.as_str(), "r2pilot"))
        },
        None => Err(Error::Config(String::from_str("Cannot determine home directory"))),
    }
}

/// The path of the configuration file: `config.toml` in the directory of
/// [`get_config_dir`].
pub fn get_config_path(home: Option<&str>) -> (r: Result<String, Error>)
    ensures
        match home {
            Some(h) => r is Ok && r->Ok_0@ == path_join(config_dir_of(h@), "config.toml"@),
            None => r is Err && r->Err_0@ == no_home_error(),
        },
{
    match get_config_dir(home) {
        Ok(dir) => Ok(join_path(dir.as_str(), "config.toml")),
        Err(e) => Err(e),
    }
}

/// The path of the credentials file: `credentials.toml` in the directory of
/// [`get_config_dir`].
pub fn get_credentials_path(home: Option<&str>) -> (r: Result<String, Error>)
    ensures
        match home {
            Some(h) => r is Ok && r->Ok_0@ == path_join(config_dir_of(h@), "credentials.toml"@),
            None => r is Err && r->Err_0@ == no_home_error(),
        },
{
    match get_config_dir(home) {
        Ok(dir) => Ok(join_path(dir.as_str(), "credentials.toml")),
        Err(e) => Err(e),
    }
}

impl CloudflareConfig {
    /// Whether an API token is set.
    pub open spec fn has_api_token(&self) -> bool {
        self.api_token is Some
    }

    /// Whether both halves of an access key pair are set.
    pub open spec fn has_access_keys(&self) -> bool {
        self.access_key_id is Some && self.secret_access_key is Some
    }
}

/// The text of the error for an account id of `len` characters.
pub open spec fn account_id_message(len: nat) -> Seq<char> {
    "Invalid Account ID format (expected 32 characters, got "@ + decimal_text(len) + ")"@
}

/// The first rule that `config` breaks, as the error reported for it, or `None`
/// where it breaks none. The rules, in the order in which they are tried:
/// the account id has 32 characters; exactly one way to authenticate is set,
/// an API token or an access key pair; the default bucket has a name; the
/// default expiration is at most seven days.
pub open spec fn first_violation(config: &ConfigFile) -> Option<ErrorView> {
    let cf = config.cloudflare;
    if cf.account_id@.len() != ACCOUNT_ID_LENGTH {
        Some(
            ErrorView {
                kind: ErrorKind::InvalidInput,
                detail: account_id_message(cf.account_id@.len()),
            },
        )
    } else if !cf.has_api_token() && !cf.has_access_keys() {
        Some(
            ErrorView {
                kind: ErrorKind::Config,
                detail: "No authentication method configured. Either api_token or access_key_id + secret_access_key must be set"@,
            },
        )
    } else if cf.has_api_token() && cf.has_access_keys() {
        Some(
            ErrorView {
                kind: ErrorKind::Config,
                detail: "More than one authentication method configured. Set either api_token or access_key_id + secret_access_key, not both"@,
            },
        )
    } else if config.r2.default_bucket@.len() == 0 {
        Some(ErrorView { kind: ErrorKind::InvalidInput, detail: "Bucket name cannot be empty"@ })
    } else if config.r2.default_expiration > MAX_DEFAULT_EXPIRATION {
        Some(
            ErrorView {
                kind: ErrorKind::InvalidInput,
                detail: "Default expiration cannot exceed 7 days (604800 seconds)"@,
            },
        )
    } else {
        None
    }
}

/// Whether `config` can be used: its account id has 32 characters; exactly
/// one way to authenticate is set, an API token or an access key pair; its
/// default bucket has a name; and its default expiration is at most seven days.
pub open spec fn is_valid(config: &ConfigFile) -> bool {
    &&& config.cloudflare.account_id@.len() == ACCOUNT_ID_LENGTH
    &&& config.cloudflare.has_api_token() != config.cloudflare.has_access_keys()
    &&& config.r2.default_bucket@.len() > 0
    &&& config.r2.default_expiration <= MAX_DEFAULT_EXPIRATION
}

/// Checks `config` against the rules: `Ok` where it can be used, else the
/// error for the first rule it breaks.
pub fn validate_config(config: &ConfigFile) -> (r: Result<(), Error>)
    ensures
        r is Ok <==> is_valid(config),
        match r {
            Ok(_) => first_violation(config) is None,
            Err(e) => first_violation(config) == Some(e@),
        },
{
    let id_len = config.cloudflare.account_id.as_str().unicode_len();
    if id_len != ACCOUNT_ID_LENGTH {
        let count = decimal(id_len as u64);
        let text = concat3(
            "Invalid Account ID format (expected 32 characters, got ",
            count.as_str(),
            ")",
        );
        return Err(Error::InvalidInput(text));
    }
    let has_api_token = config.cloudflare.api_token.is_some();
    let has_access_keys = config.cloudflare.access_key_id.is_some()
        && config.cloudflare.secret_access_key.is_some();
    if !has_api_token && !has_access_keys {
        return Err(
            Error::Config(
                String::from_str(
                    "No authentication method configured. Either api_token or access_key_id + secret_access_key must be set",
                ),
            ),
        );
    }
    if has_api_token && has_access_keys {
        return Err(
            Error::Config(
                String::from_str(
                    "More than one authentication method configured. Set either api_token or access_key_id + secret_access_key, not both",
                ),
            ),
        );
    }
    if config.r2.default_bucket.as_str().unicode_len() == 0 {
        return Err(Error::InvalidInput(String::from_str("Bucket name cannot be empty")));
    }
    if config.r2.default_expiration > MAX_DEFAULT_EXPIRATION {
        return Err(
            Error::InvalidInput(
                String::from_str("Default expiration cannot exceed 7 days (604800 seconds)"),
            ),
        );
    }
    Ok(())
}

} // verus!
