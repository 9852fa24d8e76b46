//! The Cloudflare account API: the values it exchanges, the request for each
//! operation, and what an answer means.
//!
//! Nothing is sent from here. Each operation of [`CloudflareClient`] writes
//! down the request to make ([`ApiRequest`]); the caller sends it and hands the
//! answer to [`CloudflareClient::handle_response`].

use crate::error::{Error, ErrorKind, ErrorView};
use crate::text::{decimal_text, joined, push_decimal};
use vstd::prelude::*;
use vstd::string::*;

verus! {

/// An API token as the API lists it.
#[derive(Debug, Clone)]
pub struct ApiToken {
    pub id: String,
    pub name: String,
    pub status: String,
    pub issued_on: String,
    pub modified_on: String,
    pub expires_on: Option<String>,
    pub permissions: Vec<Permission>,
}

/// One permission of a token.
#[derive(Debug, Clone)]
pub struct Permission {
    pub policy: PermissionPolicy,
}

/// What a permission allows, and on what.
#[derive(Debug, Clone)]
pub struct PermissionPolicy {
    pub permission_groups: Vec<PermissionGroup>,
    pub resources: Resources,
}

/// A named group of permissions.
#[derive(Debug, Clone)]
pub struct PermissionGroup {
    pub id: String,
    pub name: String,
}

/// The resources a policy covers.
#[derive(Debug, Clone)]
pub struct Resources {
    pub account: Option<AccountResources>,
}

/// The accounts a policy covers.
#[derive(Debug, Clone)]
pub struct AccountResources {
    pub included: Option<Vec<String>>,
}

/// What is sent to create a token.
#[derive(Debug, Clone)]
pub struct CreateTokenParams {
    pub name: String,
    pub policy: TokenPolicy,
    pub condition: Option<TokenCondition>,
}

/// The policy of a token to create.
#[derive(Debug, Clone)]
pub struct TokenPolicy {
    pub permission_groups: Vec<PermissionGroup>,
    pub resources: Resources,
}

/// A condition on the use of a token.
#[derive(Debug, Clone)]
pub struct TokenCondition {
    pub request: Option<RequestCondition>,
}

/// A condition on the requests made with a token.
#[derive(Debug, Clone)]
pub struct RequestCondition {
    pub ip: Option<IpCondition>,
}

/// The addresses a token may be used from.
#[derive(Debug, Clone)]
pub struct IpCondition {
    pub in_list: Option<Vec<String>>,
}

/// A bucket as the API lists it.
#[derive(Debug, Clone)]
pub struct R2Bucket {
    pub name: String,
    pub location: String,
    pub creation_date: String,
}

/// The CORS rules of a bucket.
#[derive(Debug, Clone)]
pub struct BucketCorsConfig {
    pub rules: Vec<CorsRule>,
}

/// One CORS rule.
#[derive(Debug, Clone)]
pub struct CorsRule {
    pub allowed_origins: Vec<String>,
    pub allowed_methods: Vec<String>,
    pub allowed_headers: Option<Vec<String>>,
    pub max_age_seconds: Option<u64>,
}

/// The lifecycle rules of a bucket.
#[derive(Debug, Clone)]
pub struct LifecycleConfiguration {
    pub rules: Vec<LifecycleRule>,
}

/// One lifecycle rule. `status` is `Enabled` or `Disabled`.
#[derive(Debug, Clone)]
pub struct LifecycleRule {
    pub id: String,
    pub filter: LifecycleFilter,
    pub status: String,
    pub expiration: Option<LifecycleExpiration>,
}

/// The objects a lifecycle rule applies to: those whose key starts with the
/// prefix, all of them where there is none.
#[derive(Debug, Clone)]
pub struct LifecycleFilter {
    pub prefix: Option<String>,
}

impl Default for LifecycleFilter {
    fn default() -> (r: Self)
        ensures
            r.prefix is None,
    {
        LifecycleFilter { prefix: None }
    }
}

/// After how many days an object expires.
#[derive(Debug, Clone)]
pub struct LifecycleExpiration {
    pub days: Option<u32>,
}

/// The static-website settings of a bucket.
#[derive(Debug, Clone)]
pub struct WebsiteConfiguration {
    pub index_document: Option<IndexDocument>,
    pub error_document: Option<ErrorDocument>,
}

impl Default for WebsiteConfiguration {
    fn default() -> (r: Self)
        ensures
            r.index_document is None,
            r.error_document is None,
    {
        WebsiteConfiguration { index_document: None, error_document: None }
    }
}

/// The document served for a directory.
#[derive(Debug, Clone)]
pub struct IndexDocument {
    pub suffix: String,
}

/// The document served where nothing is found.
#[derive(Debug, Clone)]
pub struct ErrorDocument {
    pub key: String,
}

/// The id of the permission group that allows editing R2.
pub open spec fn r2_edit_group_id() -> Seq<char> {
    "c4259685b71d4e928c3201fc048494ab"@
}

/// The name of the permission group that allows editing R2.
pub open spec fn r2_edit_group_name() -> Seq<char> {
    "Cloudflare R2 Edit"@
}

/// Builds the parameters of a token that may edit R2 in one account.
pub struct R2TokenBuilder {
    name: String,
    account_id: String,
    ip_whitelist: Option<Vec<String>>,
}

impl R2TokenBuilder {
    /// The name the token will have.
    pub closed spec fn name(&self) -> String {
        self.name
    }

    /// The account the token will be good for.
    pub closed spec fn account_id(&self) -> String {
        self.account_id
    }

    /// The addresses the token will be restricted to, if any.
    pub closed spec fn allowed_ips(&self) -> Option<Vec<String>> {
        self.ip_whitelist
    }

    /// A builder for a token of this name in this account, without a
    /// restriction on addresses.
    pub fn new(name: String, account_id: String) -> (r: Self)
        ensures
            r.name() == name,
            r.account_id() == account_id,
            r.allowed_ips() is None,
    {
        R2TokenBuilder { name, account_id, ip_whitelist: None }
    }

    /// Restricts the token to these addresses.
    pub fn ip_whitelist(self, ips: Vec<String>) -> (r: Self)
        ensures
            r.name() == self.name(),
            r.account_id() == self.account_id(),
            r.allowed_ips() == Some(ips),
    {
        R2TokenBuilder { name: self.name, account_id: self.account_id, ip_whitelist: Some(ips) }
    }

    /// The parameters: the token has the builder's name; its policy holds the
    /// one permission group that allows editing R2, on the builder's account
    /// and no other; and it carries a condition exactly where addresses were
    /// given, which lists those addresses.
    pub fn build(self) -> (r: CreateTokenParams)
        ensures
            r.name == self.name(),
            r.policy.permission_groups@.len() == 1,
            r.policy.permission_groups@[0].id@ == r2_edit_group_id(),
            r.policy.permission_groups@[0].name@ == r2_edit_group_name(),
            r.policy.resources.account is Some,
            r.policy.resources.account->Some_0.included is Some,
            r.policy.resources.account->Some_0.included->Some_0@ == seq![self.account_id()],
            match self.allowed_ips() {
                Some(ips) => r.condition == Some(
                    TokenCondition {
                        request: Some(
                            RequestCondition { ip: Some(IpCondition { in_list: Some(ips) }) },
                        ),
                    },
                ),
                None => r.condition is None,
            },
    {
        let mut groups: Vec<PermissionGroup> = Vec::new();
        groups.push(
            PermissionGroup {
                id: String::from_str("c4259685b71d4e928c3201fc048494ab"),
                name: String::from_str("Cloudflare R2 Edit"),
            },
        );
        let mut accounts: Vec<String> = Vec::new();
        accounts.push(self.account_id);
        let condition = match self.ip_whitelist {
            Some(ips) => Some(
                TokenCondition {
                    request: Some(
                        RequestCondition { ip: Some(IpCondition { in_list: Some(ips) }) },
                    ),
                },
            ),
            None => None,
        };
        CreateTokenParams {
            name: self.name,
            policy: TokenPolicy {
                permission_groups: groups,
                resources: Resources {
                    account: Some(AccountResources { included: Some(accounts) }),
                },
            },
            condition,
        }
    }
}

/// The method of a request.
#[derive(Debug, Clone, Copy, PartialEq, Eq, Structural)]
pub enum HttpMethod {
    Get,
    Post,
    Put,
    Delete,
}

/// Where a new bucket is to be placed.
#[derive(Debug, Clone)]
pub struct BucketLocation {
    pub location: String,
}

/// What is sent to create a bucket.
#[derive(Debug, Clone)]
pub struct CreateBucketBody {
    pub name: String,
    pub location: BucketLocation,
}

/// What a request carries, to be sent as JSON.
#[derive(Debug)]
pub enum RequestBody {
    Empty,
    Token(CreateTokenParams),
    Bucket(CreateBucketBody),
    Cors(BucketCorsConfig),
    Lifecycle(LifecycleConfiguration),
    Website(WebsiteConfiguration),
}

/// A request to the API.
#[derive(Debug)]
pub struct ApiRequest {
    pub method: HttpMethod,
    pub url: String,
    /// The value of the `Authorization` header.
    pub authorization: String,
    /// The value of the `Content-Type` header.
    pub content_type: String,
    pub body: RequestBody,
}

/// One error of an answer.
#[derive(Debug, Clone)]
pub struct CloudflareError {
    pub code: i32,
    pub message: String,
}

/// One message of an answer.
#[derive(Debug, Clone)]
pub struct CloudflareMessage {
    pub code: i32,
    pub message: String,
}

/// The envelope in which the API answers.
#[derive(Debug)]
pub struct CloudflareResponse<T> {
    pub success: bool,
    pub errors: Vec<CloudflareError>,
    pub messages: Vec<CloudflareMessage>,
    pub result: T,
}

/// What was read of an answer: the envelope, for a status of success; else the
/// body as text.
#[derive(Debug)]
pub enum ResponsePayload<T> {
    Envelope(CloudflareResponse<T>),
    Text(String),
}

/// Whether a status is one of success: 200 to 299.
pub open spec fn is_success_status(status: u16) -> bool {
    200 <= status < 300
}

/// Whether the answer to a failed request says more than its status: it does
/// not for 401, 403 and 404.
pub open spec fn status_needs_text(status: u16) -> bool {
    !is_success_status(status) && status != 401 && status != 403 && status != 404
}

/// The error for a status that is not one of success. `text` is the body of
/// the answer.
pub open spec fn status_error(status: u16, text: Seq<char>) -> ErrorView {
    if status == 401 {
        ErrorView { kind: ErrorKind::Authentication, detail: "Invalid API token"@ }
    } else if status == 403 {
        ErrorView { kind: ErrorKind::PermissionDenied, detail: "Insufficient permissions"@ }
    } else if status == 404 {
        ErrorView { kind: ErrorKind::NotFound, detail: "Resource not found"@ }
    } else {
        ErrorView {
            kind: ErrorKind::CloudflareApi,
            detail: "HTTP "@ + decimal_text(status as nat) + ": "@ + text,
        }
    }
}

/// The messages of `errors`, in order.
pub open spec fn error_messages(errors: Seq<CloudflareError>) -> Seq<Seq<char>> {
    errors.map_values(|e: CloudflareError| e.message@)
}

/// The error for an envelope that reports failure: its messages, with `; `
/// between them.
pub open spec fn envelope_error(errors: Seq<CloudflareError>) -> ErrorView {
    ErrorView { kind: ErrorKind::CloudflareApi, detail: joined(error_messages(errors), "; "@) }
}

/// Whether a status is one of success.
pub fn is_success(status: u16) -> (r: bool)
    ensures
        r == is_success_status(status),
{
    200 <= status && status < 300
}

/// Whether the body of a failed answer is to be read as text.
pub fn needs_text(status: u16) -> (r: bool)
    ensures
        r == status_needs_text(status),
{
    !is_success(status) && status != 401 && status != 403 && status != 404
}

fn join_messages(errors: &Vec<CloudflareError>) -> (r: String)
    ensures
        r@ == joined(error_messages(errors@), "; "@),
{
    let mut out = String::new();
    let mut i: usize = 0;
    while i < errors.len()
        invariant
            i <= errors.len(),
            out@ == joined(error_messages(errors@).take(i as int), "; "@),
        decreases errors.len() - i,
    {
        if i > 0 {
            out.append("; ");
        }
        out.append(errors[i].message.as_str());
        proof {
            let all = error_messages(errors@);
            let next = all.take(i + 1);
            assert(next.drop_last() =~= all.take(i as int));
            assert(next.last() == errors@[i as int].message@);
            if i == 0 {
                assert(out@ =~= next[0]);
            }
        }
        i += 1;
    }
    assert(error_messages(errors@).take(errors.len() as int) =~= error_messages(errors@));
    out
}

/// A client of the Cloudflare API for one account.
#[derive(Debug, Clone)]
pub struct CloudflareClient {
    pub api_token: String,
    pub account_id: String,
    pub base_url: String,
}


/// The address of the API.
pub open spec fn api_base_url() -> Seq<char> {
    "https://api.cloudflare.com/client/v4"@
}

/// The path of the tokens of the user.
pub open spec fn tokens_path() -> Seq<char> {
    "/user/tokens"@
}

/// The path of one token.
pub open spec fn token_path(token_id: Seq<char>) -> Seq<char> {
    "/user/tokens/"@ + token_id
}

/// The path of the buckets of an account.
pub open spec fn buckets_path(account_id: Seq<char>) -> Seq<char> {
    "/accounts/"@ + account_id + "/r2/buckets"@
}

/// The path of one bucket.
pub open spec fn bucket_path(account_id: Seq<char>, name: Seq<char>) -> Seq<char> {
    buckets_path(account_id) + "/"@ + name
}

/// The path of one kind of settings of a bucket.
pub open spec fn bucket_settings_path(
    account_id: Seq<char>,
    name: Seq<char>,
    settings: Seq<char>,
) -> Seq<char> {
    bucket_path(account_id, name) + "/"@ + settings
}

impl CloudflareClient {
    /// Whether `r` is the request with this method to this path of the API,
    /// authorised by the client's token and announced as JSON.
    pub open spec fn sends(&self, method: HttpMethod, path: Seq<char>, r: ApiRequest) -> bool {
        &&& r.method == method
        &&& r.url@ == self.base_url@ + path
        &&& r.authorization@ == "Bearer "@ + self.api_token@
        &&& r.content_type@ == "application/json"@
    }

    /// A client for the account, authorised by the token.
    pub fn new(api_token: String, account_id: String) -> (r: Self)
        ensures
            r.api_token == api_token,
            r.account_id == account_id,
            r.base_url@ == api_base_url(),
    {
        CloudflareClient {
            api_token,
            account_id,
            base_url: String::from_str("https://api.cloudflare.com/client/v4"),
        }
    }

    fn request(&self, method: HttpMethod, url: String, body: RequestBody) -> (r: ApiRequest)
        ensures
            r.method == method,
            r.url == url,
            r.authorization@ == "Bearer "@ + self.api_token@,
            r.content_type@ == "application/json"@,
            r.body == body,
    {
        let mut authorization = String::from_str("Bearer ");
        authorization.append(self.api_token.as_str());
        ApiRequest {
            method,
            url,
            authorization,
            content_type: String::from_str("application/json"),
            body,
        }
    }

    fn tokens_url(&self) -> (r: String)
        ensures
            r@ == self.base_url@ + tokens_path(),
    {
        let mut url = self.base_url.clone();
        url.append("/user/tokens");
        url
    }

    fn buckets_url(&self) -> (r: String)
        ensures
            r@ == self.base_url@ + buckets_path(self.account_id@),
    {
        let mut url = self.base_url.clone();
        url.append("/accounts/");
        url.append(self.account_id.as_str());
        url.append("/r2/buckets");
        assert(url@ =~= self.base_url@ + buckets_path(self.account_id@));
        url
    }

    fn bucket_url(&self, name: &str) -> (r: String)
        ensures
            r@ == self.base_url@ + bucket_path(self.account_id@, name@),
    {
        let mut url = self.buckets_url();
        url.append("/");
        url.append(name);
        assert(url@ =~= self.base_url@ + bucket_path(self.account_id@, name@));
        url
    }

    fn settings_url(&self, name: &str, settings: &str) -> (r: String)
        ensures
            r@ == self.base_url@ + bucket_settings_path(self.account_id@, name@, settings@),
    {
        let mut url = self.bucket_url(name);
        url.append("/");
        url.append(settings);
        assert(url@ =~= self.base_url@ + bucket_settings_path(
            self.account_id@,
            name@,
            settings@,
        ));
        url
    }


    /// The request that lists the API tokens.
    pub fn list_tokens(&self) -> (r: ApiRequest)
        ensures
            self.sends(HttpMethod::Get, tokens_path(), r),
            r.body == RequestBody::Empty,
    {
        self.request(HttpMethod::Get, self.tokens_url(), RequestBody::Empty)
    }

    /// The request that creates a token with these parameters.
    pub fn create_token(&self, params: CreateTokenParams) -> (r: ApiRequest)
        ensures
            self.sends(HttpMethod::Post, tokens_path(), r),
            r.body == RequestBody::Token(params),
    {
        self.request(HttpMethod::Post, self.tokens_url(), RequestBody::Token(params))
    }

    /// The request that revokes the token with this id.
    pub fn revoke_token(&self, token_id: &str) -> (r: ApiRequest)
        ensures
            self.sends(HttpMethod::Delete, token_path(token_id@), r),
            r.body == RequestBody::Empty,
    {
        let mut url = self.base_url.clone();
        url.append("/user/tokens/");
        url.append(token_id);
        assert(url@ =~= self.base_url@ + token_path(token_id@));
        self.request(HttpMethod::Delete, url, RequestBody::Empty)
    }

    /// The request that lists the buckets of the account.
    pub fn list_buckets(&self) -> (r: ApiRequest)
        ensures
            self.sends(HttpMethod::Get, buckets_path(self.account_id@), r),
            r.body == RequestBody::Empty,
    {
        self.request(HttpMethod::Get, self.buckets_url(), RequestBody::Empty)
    }

    /// The request that describes the bucket `name`.
    pub fn get_bucket(&self, name: &str) -> (r: ApiRequest)
        ensures
            self.sends(HttpMethod::Get, bucket_path(self.account_id@, name@), r),
            r.body == RequestBody::Empty,
    {
        self.request(HttpMethod::Get, self.bucket_url(name), RequestBody::Empty)
    }

    /// The request that creates the bucket `name` at `location`.
    pub fn create_bucket(&self, name: &str, location: &str) -> (r: ApiRequest)
        ensures
            self.sends(HttpMethod::Post, buckets_path(self.account_id@), r),
            r.body is Bucket,
            r.body->Bucket_0.name@ == name@,
            r.body->Bucket_0.location.location@ == location@,
    {
        let body = CreateBucketBody {
            name: String::from_str(name),
            location: BucketLocation { location: String::from_str(location) },
        };
        self.request(HttpMethod::Post, self.buckets_url(), RequestBody::Bucket(body))
    }

    /// The request that deletes the bucket `name`.
    pub fn delete_bucket(&self, name: &str) -> (r: ApiRequest)
        ensures
            self.sends(HttpMethod::Delete, bucket_path(self.account_id@, name@), r),
            r.body == RequestBody::Empty,
    {
        self.request(HttpMethod::Delete, self.bucket_url(name), RequestBody::Empty)
    }

    /// The request that reads the CORS rules of a bucket.
    pub fn get_bucket_cors(&self, bucket_name: &str) -> (r: ApiRequest)
        ensures
            self.sends(
                HttpMethod::Get,
                bucket_settings_path(self.account_id@, bucket_name@, "cors"@),
                r,
            ),
            r.body == RequestBody::Empty,
    {
        self.request(HttpMethod::Get, self.settings_url(bucket_name, "cors"), RequestBody::Empty)
    }

    /// The request that sets the CORS rules of a bucket to `config`.
    pub fn put_bucket_cors(&self, bucket_name: &str, config: BucketCorsConfig) -> (r: ApiRequest)
        ensures
            self.sends(
                HttpMethod::Put,
                bucket_settings_path(self.account_id@, bucket_name@, "cors"@),
                r,
            ),
            r.body == RequestBody::Cors(config),
    {
        self.request(
            HttpMethod::Put,
            self.settings_url(bucket_name, "cors"),
            RequestBody::Cors(config),
        )
    }

    /// The request that removes the CORS rules of a bucket.
    pub fn delete_bucket_cors(&self, bucket_name: &str) -> (r: ApiRequest)
        ensures
            self.sends(
                HttpMethod::Delete,
                bucket_settings_path(self.account_id@, bucket_name@, "cors"@),
                r,
            ),
            r.body == RequestBody::Empty,
    {
        self.request(HttpMethod::Delete, self.settings_url(bucket_name, "cors"), RequestBody::Empty)
    }

    /// The request that reads the lifecycle rules of a bucket.
    pub fn get_bucket_lifecycle(&self, bucket_name: &str) -> (r: ApiRequest)
        ensures
            self.sends(
                HttpMethod::Get,
                bucket_settings_path(self.account_id@, bucket_name@, "lifecycle"@),
                r,
            ),
            r.body == RequestBody::Empty,
    {
        self.request(
            HttpMethod::Get,
            self.settings_url(bucket_name, "lifecycle"),
            RequestBody::Empty,
        )
    }

    /// The request that sets the lifecycle rules of a bucket to `config`.
    pub fn put_bucket_lifecycle(
        &self,
        bucket_name: &str,
        config: LifecycleConfiguration,
    ) -> (r: ApiRequest)
        ensures
            self.sends(
                HttpMethod::Put,
                bucket_settings_path(self.account_id@, bucket_name@, "lifecycle"@),
                r,
            ),
            r.body == RequestBody::Lifecycle(config),
    {
        self.request(
            HttpMethod::Put,
            self.settings_url(bucket_name, "lifecycle"),
            RequestBody::Lifecycle(config),
        )
    }

    /// The request that removes the lifecycle rules of a bucket.
    pub fn delete_bucket_lifecycle(&self, bucket_name: &str) -> (r: ApiRequest)
        ensures
            self.sends(
                HttpMethod::Delete,
                bucket_settings_path(self.account_id@, bucket_name@, "lifecycle"@),
                r,
            ),
            r.body == RequestBody::Empty,
    {
        self.request(
            HttpMethod::Delete,
            self.settings_url(bucket_name, "lifecycle"),
            RequestBody::Empty,
        )
    }

    /// The request that reads the website settings of a bucket.
    pub fn get_bucket_website(&self, bucket_name: &str) -> (r: ApiRequest)
        ensures
            self.sends(
                HttpMethod::Get,
                bucket_settings_path(self.account_id@, bucket_name@, "website"@),
                r,
            ),
            r.body == RequestBody::Empty,
    {
        self.request(HttpMethod::Get, self.settings_url(bucket_name, "website"), RequestBody::Empty)
    }

    /// The request that sets the website settings of a bucket to `config`.
    pub fn put_bucket_website(
        &self,
        bucket_name: &str,
        config: WebsiteConfiguration,
    ) -> (r: ApiRequest)
        ensures
            self.sends(
                HttpMethod::Put,
                bucket_settings_path(self.account_id@, bucket_name@, "website"@),
                r,
            ),
            r.body == RequestBody::Website(config),
    {
        self.request(
            HttpMethod::Put,
            self.settings_url(bucket_name, "website"),
            RequestBody::Website(config),
        )
    }

    /// The request that removes the website settings of a bucket.
    pub fn delete_bucket_website(&self, bucket_name: &str) -> (r: ApiRequest)
        ensures
            self.sends(
                HttpMethod::Delete,
                bucket_settings_path(self.account_id@, bucket_name@, "website"@),
                r,
            ),
            r.body == RequestBody::Empty,
    {
        self.request(
            HttpMethod::Delete,
            self.settings_url(bucket_name, "website"),
            RequestBody::Empty,
        )
    }

    /// What an answer means. The body of an answer is read as an envelope
    /// where the status is one of success, and as text where it is not. An
    /// envelope that reports success gives its result; one that reports
    /// failure gives its error messages, joined. A body read as text gives
    /// the error for the status.
    pub fn handle_response<T>(&self, status: u16, payload: ResponsePayload<T>) -> (r: Result<
        T,
        Error,
    >)
        ensures
            match payload {
                ResponsePayload::Envelope(envelope) => if envelope.success {
                    r == Ok::<T, Error>(envelope.result)
                } else {
                    r is Err && r->Err_0@ == envelope_error(envelope.errors@)
                },
                ResponsePayload::Text(text) => r is Err && r->Err_0@ == status_error(status, text@),
            },
    {
        match payload {
            ResponsePayload::Envelope(envelope) => {
                if envelope.success {
                    Ok(envelope.result)
                } else {
                    Err(Error::CloudflareApi(join_messages(&envelope.errors)))
                }
            },
            ResponsePayload::Text(text) => {
                if status == 401 {
                    Err(Error::Authentication(String::from_str("Invalid API token")))
                } else if status == 403 {
                    Err(Error::PermissionDenied(String::from_str("Insufficient permissions")))
                } else if status == 404 {
                    Err(Error::NotFound(String::from_str("Resource not found")))
                } else {
                    let mut detail = String::from_str("HTTP ");
                    push_decimal(&mut detail, status as u64);
                    detail.append(": ");
                    detail.append(text.as_str());
                    Err(Error::CloudflareApi(detail))
                }
            },
        }
    }
}

} // verus!
