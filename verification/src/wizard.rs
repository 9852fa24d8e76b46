//! What the interactive wizards decide: whether an answer is acceptable, and
//! what configuration the answers make.
//!
//! Asking the questions is the caller's work.

use crate::cloudflare::{
    BucketCorsConfig, CorsRule, LifecycleConfiguration, LifecycleExpiration, LifecycleFilter,
    LifecycleRule,
};
use crate::config::{CloudflareConfig, ConfigFile, R2Config};
use crate::text::{
    chars_of, concat3, decimal, decimal_text, is_alphanumeric, is_alphanumeric_char, parse_u32,
    parse_u64, parsed_number, split, split_on, starts_with, trim, trimmed,
};
use vstd::prelude::*;
use vstd::string::*;
use vstd::utf8::*;

verus! {

/// Whether a character is an ASCII letter or digit.
pub open spec fn is_ascii_alphanumeric_char(c: char) -> bool {
    let v = c as u32;
    (48 <= v <= 57) || (65 <= v <= 90) || (97 <= v <= 122)
}

/// The number of bytes that a text takes in UTF-8, which is what `str::len` counts.
pub open spec fn byte_len(s: Seq<char>) -> nat {
    encode_utf8(s).len()
}

/// What is wrong with an account id, if anything. Tried in this order: it is
/// empty; it holds a character that is no ASCII letter or digit; it is not 32
/// bytes long.
pub open spec fn account_id_complaint(input: Seq<char>) -> Option<Seq<char>> {
    if input.len() == 0 {
        Some("Account ID cannot be empty"@)
    } else if exists|i: int|
        0 <= i < input.len() && !is_ascii_alphanumeric_char(#[trigger] input[i]) {
        Some("Account ID must be alphanumeric (32 characters)"@)
    } else if byte_len(input) != 32 {
        Some("Account ID must be exactly 32 characters"@)
    } else {
        None
    }
}

/// What is wrong with an API token, if anything: it is empty, or does not
/// start with `eyJ`.
pub open spec fn api_token_complaint(input: Seq<char>) -> Option<Seq<char>> {
    if input.len() == 0 {
        Some("API Token cannot be empty"@)
    } else if !"eyJ"@.is_prefix_of(input) {
        Some("Invalid token format (should start with 'eyJ')"@)
    } else {
        None
    }
}

/// What is wrong with an access key id, if anything: it is empty.
pub open spec fn access_key_id_complaint(input: Seq<char>) -> Option<Seq<char>> {
    if input.len() == 0 {
        Some("Access Key ID cannot be empty"@)
    } else {
        None
    }
}

/// What is wrong with a secret access key, if anything: it is empty, or
/// shorter than 20 bytes.
pub open spec fn secret_access_key_complaint(input: Seq<char>) -> Option<Seq<char>> {
    if input.len() == 0 {
        Some("Secret Access Key cannot be empty"@)
    } else if byte_len(input) < 20 {
        Some("Secret Access Key seems too short"@)
    } else {
        None
    }
}

/// Whether a character may stand in a bucket name: a letter or digit, a
/// hyphen or a dot.
pub open spec fn is_bucket_name_char(c: char) -> bool {
    is_alphanumeric_char(c) || c == '-' || c == '.'
}

/// What is wrong with a bucket name, if anything. Tried in this order: it is
/// empty; it is shorter than 3 bytes; it is longer than 63 bytes; it holds a
/// character that may not stand in a bucket name.
pub open spec fn bucket_name_complaint(input: Seq<char>) -> Option<Seq<char>> {
    if input.len() == 0 {
        Some("Bucket name cannot be empty"@)
    } else if byte_len(input) < 3 {
        Some("Bucket name must be at least 3 characters"@)
    } else if byte_len(input) > 63 {
        Some("Bucket name must be less than 64 characters"@)
    } else if exists|i: int| 0 <= i < input.len() && !is_bucket_name_char(#[trigger] input[i]) {
        Some("Bucket name can only contain alphanumeric characters, hyphens, and dots"@)
    } else {
        None
    }
}

/// Whether `r` is the verdict on an answer with this complaint: `Ok` where
/// there is none, else the complaint.
pub open spec fn is_verdict(r: Result<(), &'static str>, complaint: Option<Seq<char>>) -> bool {
    match r {
        Ok(_) => complaint is None,
        Err(text) => complaint == Some(text@),
    }
}

fn byte_length(s: &str) -> (n: usize)
    ensures
        n == byte_len(s@),
{
    s.as_bytes().len()
}

fn is_ascii_alphanumeric(c: char) -> (r: bool)
    ensures
        r == is_ascii_alphanumeric_char(c),
{
    let v = c as u32;
    (48 <= v && v <= 57) || (65 <= v && v <= 90) || (97 <= v && v <= 122)
}

fn all_ascii_alphanumeric(input: &str) -> (r: bool)
    ensures
        r == !(exists|i: int|
            0 <= i < input@.len() && !is_ascii_alphanumeric_char(#[trigger] input@[i])),
{
    let chars = chars_of(input);
    let mut i: usize = 0;
    while i < chars.len()
        invariant
            i <= chars.len(),
            chars@ == input@,
            forall|j: int| 0 <= j < i ==> is_ascii_alphanumeric_char(#[trigger] input@[j]),
        decreases chars.len() - i,
    {
        if !is_ascii_alphanumeric(chars[i]) {
            assert(!is_ascii_alphanumeric_char(input@[i as int]));
            return false;
        }
        i += 1;
    }
    true
}

fn all_bucket_name_chars(input: &str) -> (r: bool)
    ensures
        r == !(exists|i: int| 0 <= i < input@.len() && !is_bucket_name_char(#[trigger] input@[i])),
{
    let chars = chars_of(input);
    let mut i: usize = 0;
    while i < chars.len()
        invariant
            i <= chars.len(),
            chars@ == input@,
            forall|j: int| 0 <= j < i ==> is_bucket_name_char(#[trigger] input@[j]),
        decreases chars.len() - i,
    {
        let c = chars[i];
        if !(is_alphanumeric(c) || c == '-' || c == '.') {
            assert(!is_bucket_name_char(input@[i as int]));
            return false;
        }
        i += 1;
    }
    true
}

/// Whether an account id is acceptable.
pub fn check_account_id(input: &str) -> (r: Result<(), &'static str>)
    ensures
        is_verdict(r, account_id_complaint(input@)),
{
    if input.is_empty() {
        Err("Account ID cannot be empty")
    } else if !all_ascii_alphanumeric(input) {
        Err("Account ID must be alphanumeric (32 characters)")
    } else if byte_length(input) != 32 {
        Err("Account ID must be exactly 32 characters")
    } else {
        Ok(())
    }
}

/// Whether an API token is acceptable.
pub fn check_api_token(input: &str) -> (r: Result<(), &'static str>)
    ensures
        is_verdict(r, api_token_complaint(input@)),
{
    if input.is_empty() {
        Err("API Token cannot be empty")
    } else if !starts_with(input, "eyJ") {
        Err("Invalid token format (should start with 'eyJ')")
    } else {
        Ok(())
    }
}

/// Whether an access key id is acceptable.
pub fn check_access_key_id(input: &str) -> (r: Result<(), &'static str>)
    ensures
        is_verdict(r, access_key_id_complaint(input@)),
{
    if input.is_empty() {
        Err("Access Key ID cannot be empty")
    } else {
        Ok(())
    }
}

/// Whether a secret access key is acceptable.
pub fn check_secret_access_key(input: &str) -> (r: Result<(), &'static str>)
    ensures
        is_verdict(r, secret_access_key_complaint(input@)),
{
    if input.is_empty() {
        Err("Secret Access Key cannot be empty")
    } else if byte_length(input) < 20 {
        Err("Secret Access Key seems too short")
    } else {
        Ok(())
    }
}

/// Whether a bucket name is acceptable.
pub fn check_bucket_name(input: &str) -> (r: Result<(), &'static str>)
    ensures
        is_verdict(r, bucket_name_complaint(input@)),
{
    if input.is_empty() {
        Err("Bucket name cannot be empty")
    } else if byte_length(input) < 3 {
        Err("Bucket name must be at least 3 characters")
    } else if byte_length(input) > 63 {
        Err("Bucket name must be less than 64 characters")
    } else if !all_bucket_name_chars(input) {
        Err("Bucket name can only contain alphanumeric characters, hyphens, and dots")
    } else {
        Ok(())
    }
}

/// The endpoint of the object store of an account.
pub open spec fn endpoint_of(account_id: Seq<char>) -> Seq<char> {
    "https://"@ + account_id + ".r2.cloudflarestorage.com"@
}

/// The endpoint of the object store of an account.
pub fn endpoint_for(account_id: &str) -> (r: String)
    ensures
        r@ == endpoint_of(account_id@),
{
    concat3("https://", account_id, ".r2.cloudflarestorage.com")
}

/// The configuration that the setup wizard saves: the account with its
/// endpoint and the credentials given, the bucket in region `auto` with URLs
/// good for two hours by default, and none of the optional sections.
pub fn initial_config(
    account_id: String,
    api_token: Option<String>,
    access_key_id: Option<String>,
    secret_access_key: Option<String>,
    default_bucket: String,
) -> (r: ConfigFile)
    ensures
        r.cloudflare.account_id == account_id,
        r.cloudflare.endpoint@ == endpoint_of(account_id@),
        r.cloudflare.api_token == api_token,
        r.cloudflare.access_key_id == access_key_id,
        r.cloudflare.secret_access_key == secret_access_key,
        r.r2.default_bucket == default_bucket,
        r.r2.region@ == "auto"@,
        r.r2.default_expiration == 7200,
        r.advanced is None,
        r.logging is None,
        r.output is None,
{
    let endpoint = endpoint_for(account_id.as_str());
    ConfigFile {
        cloudflare: CloudflareConfig {
            account_id,
            endpoint,
            api_token,
            access_key_id,
            secret_access_key,
        },
        r2: R2Config {
            default_bucket,
            region: String::from_str("auto"),
            default_expiration: 7200,
        },
        advanced: None,
        logging: None,
        output: None,
    }
}

/// The entries of a list written with commas between them, each without the
/// whitespace around it.
pub open spec fn list_entries(input: Seq<char>) -> Seq<Seq<char>> {
    split_on(input, ',').map_values(|piece: Seq<char>| trimmed(piece))
}

/// The entries of a list written with commas between them, each without the
/// whitespace around it.
pub fn split_list(input: &str) -> (r: Vec<String>)
    ensures
        r.deep_view() == list_entries(input@),
{
    let pieces = split(input, ',');
    let mut out: Vec<String> = Vec::new();
    let mut i: usize = 0;
    while i < pieces.len()
        invariant
            i <= pieces.len(),
            pieces.deep_view() == split_on(input@, ','),
            out.len() == i,
            forall|j: int| 0 <= j < i ==> (#[trigger] out@[j])@ == trimmed(pieces@[j]@),
        decreases pieces.len() - i,
    {
        out.push(trim(pieces[i].as_str()));
        i += 1;
    }
    assert(out.deep_view() =~= list_entries(input@)) by {
        assert(out.deep_view().len() == pieces.deep_view().len());
        assert forall|j: int| 0 <= j < out.len() implies out.deep_view()[j] == list_entries(
            input@,
        )[j] by {
            assert(pieces.deep_view()[j] == pieces@[j]@);
        }
    }
    out
}

/// The one entry `*`, which allows everything.
pub fn wildcard() -> (r: Vec<String>)
    ensures
        r.deep_view() == seq!["*"@],
{
    let mut out: Vec<String> = Vec::new();
    out.push(String::from_str("*"));
    assert(out.deep_view() =~= seq!["*"@]);
    out
}

/// The allowed origins: all of them where asked so, else the entries of the list given.
pub fn origins_from(allow_all: bool, input: &str) -> (r: Vec<String>)
    ensures
        r.deep_view() == (if allow_all {
            seq!["*"@]
        } else {
            list_entries(input@)
        }),
{
    if allow_all {
        wildcard()
    } else {
        split_list(input)
    }
}

/// The allowed headers: all of them where asked so; none where the list
/// given is empty; else the entries of the list.
pub fn headers_from(allow_all: bool, input: &str) -> (r: Option<Vec<String>>)
    ensures
        match r {
            Some(list) => list.deep_view() == (if allow_all {
                seq!["*"@]
            } else {
                list_entries(input@)
            }) && (allow_all || input@.len() > 0),
            None => !allow_all && input@.len() == 0,
        },
{
    if allow_all {
        Some(wildcard())
    } else if input.is_empty() {
        None
    } else {
        Some(split_list(input))
    }
}

/// The allowed methods for the entries picked from the menu: of each entry
/// its position in the menu, written as a number.
pub fn methods_from(selection: &Vec<usize>) -> (r: Vec<String>)
    ensures
        r.deep_view() == selection@.map_values(|at: usize| decimal_text(at as nat)),
{
    let mut out: Vec<String> = Vec::new();
    let mut i: usize = 0;
    while i < selection.len()
        invariant
            i <= selection.len(),
            out.len() == i,
            forall|j: int|
                0 <= j < i ==> (#[trigger] out@[j])@ == decimal_text(selection@[j] as nat),
        decreases selection.len() - i,
    {
        out.push(decimal(selection[i] as u64));
        i += 1;
    }
    assert(out.deep_view() =~= selection@.map_values(|at: usize| decimal_text(at as nat)));
    out
}

/// For how many seconds an answer may be kept: the number written, none where
/// what is written is no number.
pub fn max_age_from(input: &str) -> (r: Option<u64>)
    ensures
        match r {
            Some(n) => parsed_number(input@, u64::MAX as nat) == Some(n as nat),
            None => parsed_number(input@, u64::MAX as nat) is None,
        },
{
    parse_u64(input)
}

/// The CORS configuration with the one rule that the answers make.
pub fn cors_config(
    allowed_origins: Vec<String>,
    allowed_methods: Vec<String>,
    allowed_headers: Option<Vec<String>>,
    max_age_seconds: Option<u64>,
) -> (r: BucketCorsConfig)
    ensures
        r.rules@ == seq![
            CorsRule { allowed_origins, allowed_methods, allowed_headers, max_age_seconds },
        ],
{
    let mut rules: Vec<CorsRule> = Vec::new();
    rules.push(CorsRule { allowed_origins, allowed_methods, allowed_headers, max_age_seconds });
    assert(rules@ =~= seq![
        CorsRule { allowed_origins, allowed_methods, allowed_headers, max_age_seconds },
    ]);
    BucketCorsConfig { rules }
}

/// The id proposed for the next rule when there are `count` rules already.
pub fn default_rule_id(count: usize) -> (r: String)
    requires
        count < usize::MAX,
    ensures
        r@ == "rule-"@ + decimal_text((count + 1) as nat),
{
    let number = decimal((count + 1) as u64);
    let mut out = String::from_str("rule-");
    out.append(number.as_str());
    out
}

/// The filter for a prefix: none where the prefix is empty.
pub fn filter_from(prefix: String) -> (r: LifecycleFilter)
    ensures
        r.prefix == (if prefix@.len() == 0 {
            None
        } else {
            Some(prefix)
        }),
{
    if prefix.as_str().is_empty() {
        LifecycleFilter { prefix: None }
    } else {
        LifecycleFilter { prefix: Some(prefix) }
    }
}

/// The days that an answer stands for: the number written, 30 where what is
/// written is no number that fits in 32 bits.
pub open spec fn days_of(input: Seq<char>) -> nat {
    match parsed_number(input, u32::MAX as nat) {
        Some(n) => n,
        None => 30,
    }
}

/// The expiration of a rule: none where none was asked for, else after the
/// days that the answer stands for.
pub fn expiration_from(use_expiration: bool, days_input: &str) -> (r: Option<LifecycleExpiration>)
    ensures
        match r {
            Some(e) => use_expiration && e.days is Some && e.days->Some_0 == days_of(days_input@),
            None => !use_expiration,
        },
{
    if use_expiration {
        let days = match parse_u32(days_input) {
            Some(n) => n,
            None => 30,
        };
        Some(LifecycleExpiration { days: Some(days) })
    } else {
        None
    }
}

/// The status of a rule: `Enabled` or `Disabled`.
pub fn status_from(enabled: bool) -> (r: String)
    ensures
        r@ == (if enabled {
            "Enabled"@
        } else {
            "Disabled"@
        }),
{
    if enabled {
        String::from_str("Enabled")
    } else {
        String::from_str("Disabled")
    }
}

/// The lifecycle rule that the answers make.
pub fn lifecycle_rule(
    id: String,
    prefix: String,
    use_expiration: bool,
    days_input: &str,
    enabled: bool,
) -> (r: LifecycleRule)
    ensures
        r.id == id,
        r.filter.prefix == (if prefix@.len() == 0 {
            None
        } else {
            Some(prefix)
        }),
        match r.expiration {
            Some(e) => use_expiration && e.days is Some && e.days->Some_0 == days_of(days_input@),
            None => !use_expiration,
        },
        r.status@ == (if enabled {
            "Enabled"@
        } else {
            "Disabled"@
        }),
{
    LifecycleRule {
        id,
        filter: filter_from(prefix),
        status: status_from(enabled),
        expiration: expiration_from(use_expiration, days_input),
    }
}

/// The lifecycle configuration with these rules.
pub fn lifecycle_config(rules: Vec<LifecycleRule>) -> (r: LifecycleConfiguration)
    ensures
        r.rules == rules,
{
    LifecycleConfiguration { rules }
}

} // verus!
