use r2pilot::wizard::{
    check_access_key_id, check_account_id, check_api_token, check_bucket_name,
    check_secret_access_key, cors_config, default_rule_id, endpoint_for, expiration_from,
    filter_from, headers_from, initial_config, lifecycle_config, lifecycle_rule, max_age_from,
    methods_from, origins_from, split_list, status_from,
};

#[test]
fn account_id_answers() {
    assert_eq!(check_account_id("0123456789abcdef0123456789ABCDEF"), Ok(()));
    assert_eq!(check_account_id(""), Err("Account ID cannot be empty"));
    assert_eq!(
        check_account_id("0123456789abcdef0123456789abcde-"),
        Err("Account ID must be alphanumeric (32 characters)")
    );
    assert_eq!(check_account_id("é"), Err("Account ID must be alphanumeric (32 characters)"));
    assert_eq!(check_account_id("abc"), Err("Account ID must be exactly 32 characters"));
    assert_eq!(
        check_account_id("0123456789abcdef0123456789abcdef0"),
        Err("Account ID must be exactly 32 characters")
    );
}

#[test]
fn api_token_answers() {
    assert_eq!(check_api_token("eyJhbGciOi"), Ok(()));
    assert_eq!(check_api_token("eyJ"), Ok(()));
    assert_eq!(check_api_token(""), Err("API Token cannot be empty"));
    assert_eq!(check_api_token("ey"), Err("Invalid token format (should start with 'eyJ')"));
    assert_eq!(check_api_token("xeyJ"), Err("Invalid token format (should start with 'eyJ')"));
}

#[test]
fn access_key_answers() {
    assert_eq!(check_access_key_id("k"), Ok(()));
    assert_eq!(check_access_key_id(""), Err("Access Key ID cannot be empty"));
    assert_eq!(check_secret_access_key("01234567890123456789"), Ok(()));
    assert_eq!(check_secret_access_key(""), Err("Secret Access Key cannot be empty"));
    assert_eq!(
        check_secret_access_key("0123456789012345678"),
        Err("Secret Access Key seems too short")
    );
    // Ten characters of two bytes each are twenty bytes.
    assert_eq!(check_secret_access_key("éééééééééé"), Ok(()));
}

#[test]
fn bucket_name_answers() {
    assert_eq!(check_bucket_name("my-bucket"), Ok(()));
    assert_eq!(check_bucket_name("a.b"), Ok(()));
    assert_eq!(check_bucket_name("bücket"), Ok(()));
    assert_eq!(check_bucket_name(""), Err("Bucket name cannot be empty"));
    assert_eq!(check_bucket_name("ab"), Err("Bucket name must be at least 3 characters"));
    let long = "a".repeat(64);
    assert_eq!(check_bucket_name(&long), Err("Bucket name must be less than 64 characters"));
    assert_eq!(check_bucket_name(&"a".repeat(63)), Ok(()));
    assert_eq!(
        check_bucket_name("my_bucket"),
        Err("Bucket name can only contain alphanumeric characters, hyphens, and dots")
    );
    assert_eq!(
        check_bucket_name("my bucket"),
        Err("Bucket name can only contain alphanumeric characters, hyphens, and dots")
    );
}

#[test]
fn setup_makes_the_configuration() {
    assert_eq!(endpoint_for("abc"), "https://abc.r2.cloudflarestorage.com");
    let c = initial_config(
        "0123456789abcdef0123456789abcdef".to_string(),
        None,
        Some("id".to_string()),
        Some("secret".to_string()),
        "media".to_string(),
    );
    assert_eq!(c.cloudflare.account_id, "0123456789abcdef0123456789abcdef");
    assert_eq!(
        c.cloudflare.endpoint,
        "https://0123456789abcdef0123456789abcdef.r2.cloudflarestorage.com"
    );
    assert!(c.cloudflare.api_token.is_none());
    assert_eq!(c.cloudflare.access_key_id, Some("id".to_string()));
    assert_eq!(c.cloudflare.secret_access_key, Some("secret".to_string()));
    assert_eq!(c.r2.default_bucket, "media");
    assert_eq!(c.r2.region, "auto");
    assert_eq!(c.r2.default_expiration, 7200);
    assert!(c.advanced.is_none() && c.logging.is_none() && c.output.is_none());
    assert!(r2pilot::validate_config(&c).is_ok());
}

#[test]
fn lists_are_split_and_trimmed() {
    assert_eq!(
        split_list("https://example.com, https://app.example.com"),
        vec!["https://example.com", "https://app.example.com"]
    );
    assert_eq!(split_list(" a ,b,, c\t"), vec!["a", "b", "", "c"]);
    assert_eq!(split_list(""), vec![""]);
    assert_eq!(split_list(","), vec!["", ""]);
    assert_eq!(split_list("  one  "), vec!["one"]);
    assert_eq!(split_list("a b"), vec!["a b"]);
    let input = " x , y\u{a0},\u{2003}z ";
    let expected: Vec<String> = input.split(',').map(|s| s.trim().to_string()).collect();
    assert_eq!(split_list(input), expected);
}

#[test]
fn origins_and_headers() {
    assert_eq!(origins_from(true, "ignored"), vec!["*"]);
    assert_eq!(origins_from(false, "a, b"), vec!["a", "b"]);
    assert_eq!(headers_from(true, ""), Some(vec!["*".to_string()]));
    assert_eq!(headers_from(false, ""), None);
    assert_eq!(
        headers_from(false, "Content-Type, Authorization"),
        Some(vec!["Content-Type".to_string(), "Authorization".to_string()])
    );
}

#[test]
fn methods_are_the_positions_picked() {
    assert_eq!(methods_from(&vec![0, 5]), vec!["0", "5"]);
    assert_eq!(methods_from(&Vec::new()), Vec::<String>::new());
    assert_eq!(methods_from(&vec![12]), vec!["12"]);
}

#[test]
fn max_age_reads_numbers_as_std_does() {
    for input in [
        "86400", "0", "007", "+5", "+", "", "-1", " 1", "1 ", "1_000", "abc", "12a",
        "18446744073709551615", "18446744073709551616", "99999999999999999999999", "+0", "++1",
    ] {
        assert_eq!(max_age_from(input), input.parse::<u64>().ok(), "{:?}", input);
    }
    assert_eq!(max_age_from("86400"), Some(86400));
}

#[test]
fn cors_config_has_one_rule() {
    let c = cors_config(
        vec!["*".to_string()],
        vec!["0".to_string()],
        None,
        Some(60),
    );
    assert_eq!(c.rules.len(), 1);
    assert_eq!(c.rules[0].allowed_origins, vec!["*"]);
    assert_eq!(c.rules[0].allowed_methods, vec!["0"]);
    assert_eq!(c.rules[0].allowed_headers, None);
    assert_eq!(c.rules[0].max_age_seconds, Some(60));
}

#[test]
fn lifecycle_answers() {
    assert_eq!(default_rule_id(0), "rule-1");
    assert_eq!(default_rule_id(9), "rule-10");
    assert!(filter_from(String::new()).prefix.is_none());
    assert_eq!(filter_from("logs/".to_string()).prefix, Some("logs/".to_string()));
    assert!(expiration_from(false, "30").is_none());
    assert_eq!(expiration_from(true, "90").unwrap().days, Some(90));
    assert_eq!(expiration_from(true, "soon").unwrap().days, Some(30));
    assert_eq!(expiration_from(true, "").unwrap().days, Some(30));
    assert_eq!(expiration_from(true, "4294967295").unwrap().days, Some(u32::MAX));
    assert_eq!(expiration_from(true, "4294967296").unwrap().days, Some(30));
    assert_eq!(status_from(true), "Enabled");
    assert_eq!(status_from(false), "Disabled");
}

#[test]
fn lifecycle_rule_from_answers() {
    let rule = lifecycle_rule("log-rotation".to_string(), "logs/".to_string(), true, "45", true);
    assert_eq!(rule.id, "log-rotation");
    assert_eq!(rule.filter.prefix, Some("logs/".to_string()));
    assert_eq!(rule.expiration.unwrap().days, Some(45));
    assert_eq!(rule.status, "Enabled");
    let rule = lifecycle_rule("all".to_string(), String::new(), false, "45", false);
    assert!(rule.filter.prefix.is_none());
    assert!(rule.expiration.is_none());
    assert_eq!(rule.status, "Disabled");
    let config = lifecycle_config(vec![rule]);
    assert_eq!(config.rules.len(), 1);
    assert_eq!(config.rules[0].id, "all");
}
