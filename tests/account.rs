use r2_d2::api::{
    bucket_domains, enabled_domains, managed_domain, obfuscated_id, preferred_domain, to_query_part,
    ApiError, ApiResponse, CustomBucketDomainData, CustomBucketDomainList, Direction, ListOptions,
    ManagedBucketDomainData, PythonErrorKind, QueryString, TokenVerifyData,
};
use r2_d2::helpers::{aotoi, atoi, sotoi, stoi, StringExt};
use r2_d2::r2::{bucket_path, get_from_config, ConfigError, R2D2};
use r2_d2::usage::{calculate_sum, usage_rows, R2Usage, UsageTable};
use r2_d2::api::UsageResultData;

fn pairs(items: &[(&str, &str)]) -> Vec<(String, String)> {
    items.iter().map(|(k, v)| (k.to_string(), v.to_string())).collect()
}

#[test]
fn integers_from_text() {
    assert_eq!(atoi("42"), 42);
    assert_eq!(atoi("-17"), -17);
    assert_eq!(atoi("+8"), 8);
    assert_eq!(atoi("4x"), 0);
    assert_eq!(atoi(""), 0);
    assert_eq!(atoi("9223372036854775808"), 0);
    assert_eq!(stoi("123".to_string()), 123);
    assert_eq!(aotoi(Some("5")), 5);
    assert_eq!(aotoi(None), 0);
    assert_eq!(sotoi(Some("77".to_string())), 77);
    assert_eq!(sotoi(None), 0);
}

#[test]
fn string_or_default() {
    assert_eq!(String::new().or("dflt"), "dflt");
    assert_eq!("x".to_string().or("dflt"), "x");
}

#[test]
fn config_lookup() {
    let config = pairs(&[("A", "1"), ("B", "2"), ("A", "3")]);
    assert_eq!(get_from_config(&config, "A").unwrap(), "3");
    assert_eq!(get_from_config(&config, "B").unwrap(), "2");
    assert_eq!(
        get_from_config(&config, "C"),
        Err(ConfigError::MissingKey { key: "C".to_string() })
    );
}

#[test]
fn credentials_from_config() {
    let config = pairs(&[("R2_ACCOUNT_ID", "acc"), ("R2_API_KEY", "key"), ("R2_BUCKET", "bkt")]);
    let r2 = R2D2::from_config(&config).unwrap();
    assert_eq!(r2.bucket, Some("bkt".to_string()));
    assert_eq!(r2.endpoint_url(), "https://acc.r2.cloudflarestorage.com");
    assert_eq!(r2.bearer(), "Bearer key");
    let settings = r2.backend_settings();
    assert_eq!(settings.key_id, "");
    assert_eq!(settings.bucket, "bkt");
    let missing = R2D2::from_config(&pairs(&[("R2_ACCOUNT_ID", "acc")]));
    assert_eq!(missing, Err(ConfigError::MissingKey { key: "R2_API_KEY".to_string() }));
    let missing = R2D2::from_config(&pairs(&[]));
    assert_eq!(missing, Err(ConfigError::MissingKey { key: "R2_ACCOUNT_ID".to_string() }));
}

#[test]
fn bucket_choice() {
    let mut r2 = R2D2::new("acc".to_string(), "key".to_string(), None, None, None);
    assert_eq!(r2.bucket_or(&None), Err(ConfigError::NoBucket));
    assert_eq!(r2.bucket_or(&Some("x".to_string())).unwrap(), "x");
    r2.set_bucket(Some("mine".to_string()));
    assert_eq!(r2.bucket_or(&None).unwrap(), "mine");
    assert_eq!(r2.bucket_or(&Some("x".to_string())).unwrap(), "x");
}

#[test]
fn api_targets() {
    let r2 = R2D2::new("acc".to_string(), "key".to_string(), None, None, None);
    let (base, rest) = r2.api_target("/user/tokens/verify");
    assert_eq!(base, "https://api.cloudflare.com/client/v4/");
    assert_eq!(rest, "user/tokens/verify");
    let (base, rest) = r2.api_target("buckets");
    assert_eq!(base, "https://api.cloudflare.com/client/v4/accounts/acc/r2/");
    assert_eq!(rest, "buckets");
    assert_eq!(bucket_path("b", Some("domains/custom")), "buckets/b/domains/custom");
    assert_eq!(bucket_path("b", None), "buckets/b");
}

#[test]
fn response_results_and_errors() {
    let ok: ApiResponse<u32> = ApiResponse { success: true, errors: None, messages: None, result: Some(7) };
    assert_eq!(ok.into_error(), Ok(7));
    let empty: ApiResponse<u32> = ApiResponse { success: true, errors: None, messages: None, result: None };
    assert_eq!(empty.into_error(), Err("Expected result data but got None!".to_string()));
    let failed: ApiResponse<u32> = ApiResponse {
        success: false,
        errors: Some(vec![
            ApiError { code: 1, message: "bad".to_string() },
            ApiError { code: 2, message: "worse".to_string() },
        ]),
        messages: None,
        result: None,
    };
    assert_eq!(failed.into_error(), Err("bad\nworse\n".to_string()));
    let vague: ApiResponse<u32> =
        ApiResponse { success: false, errors: Some(vec![]), messages: None, result: Some(1) };
    assert_eq!(
        vague.into_error(),
        Err("Something went wrong, but no specific information was provided.".to_string())
    );
}

#[test]
fn token_status() {
    assert!(TokenVerifyData { id: "i".to_string(), status: "active".to_string() }.ok());
    assert!(!TokenVerifyData { id: "i".to_string(), status: "disabled".to_string() }.ok());
}

#[test]
fn ids_are_obfuscated() {
    assert_eq!(obfuscated_id("abcdefghijkl", false), "abcd...ijkl");
    assert_eq!(obfuscated_id("abcdefghijkl", true), "abcdefghijkl");
    assert_eq!(obfuscated_id("abcdefgh", false), "abcdefgh");
}

#[test]
fn domains() {
    let list = CustomBucketDomainList {
        domains: vec![
            CustomBucketDomainData { domain: "a.com".to_string(), enabled: true, status: None },
            CustomBucketDomainData { domain: "b.com".to_string(), enabled: false, status: None },
        ],
    };
    let custom = enabled_domains(&list);
    assert_eq!(custom, vec!["a.com".to_string()]);
    let managed = managed_domain(ManagedBucketDomainData {
        bucket_id: "id".to_string(),
        domain: "pub.r2.dev".to_string(),
        enabled: true,
    });
    assert_eq!(managed, Ok("pub.r2.dev".to_string()));
    let off = managed_domain(ManagedBucketDomainData {
        bucket_id: "id".to_string(),
        domain: "pub.r2.dev".to_string(),
        enabled: false,
    });
    assert_eq!(off, Err("Managed domain disabled!".to_string()));
    let all = bucket_domains(Some(custom), managed.ok());
    assert_eq!(preferred_domain(all), Some("pub.r2.dev".to_string()));
    assert_eq!(preferred_domain(bucket_domains(None, None)), None);
}

#[test]
fn queries() {
    assert_eq!(to_query_part("k", "v"), "k=v");
    assert_eq!(Direction::default(), Direction::ASC);
    assert_eq!(Direction::DESC.to_string(), "desc");
    assert_eq!(ListOptions::default().to_query(), "");
    let options = ListOptions {
        cursor: Some("c1".to_string()),
        direction: Some(Direction::DESC),
        order: None,
        per_page: Some(20),
        start_after: None,
    };
    assert_eq!(options.to_query(), "cursor=c1&direction=desc&per_page=20");
}

#[test]
fn usage_figures() {
    let data = UsageResultData {
        end: Some("2024".to_string()),
        payload_size: Some("1000".to_string()),
        metadata_size: None,
        object_count: Some("x".to_string()),
        upload_count: Some("3".to_string()),
        infrequent_access_payload_size: None,
        infrequent_access_metadata_size: None,
        infrequent_access_object_count: None,
        infrequent_access_upload_count: None,
    };
    let usage = R2Usage::from_data(data);
    assert_eq!(usage.end, "2024");
    assert_eq!(usage.payload_size, 1000);
    assert_eq!(usage.metadata_size, 0);
    assert_eq!(usage.object_count, 0);
    assert_eq!(usage.upload_count, 3);
}

#[test]
fn usage_table_rows() {
    let row = UsageTable::new("b", 10000);
    assert_eq!(row.human_size, "10 KB");
    assert_eq!(UsageTable::new("b", 1500).human_size, "1.5 KB");
    assert_eq!(UsageTable::new("b", -5).human_size, "0 B");
    let bold = row.bold();
    assert_eq!(bold.bucket_name, "\u{1b}[1mb\u{1b}[0m");
    assert_eq!(bold.raw_size, 10000);
    let rows = usage_rows(&vec![("a".to_string(), 5), ("b".to_string(), 7)]).unwrap();
    assert_eq!(rows.len(), 3);
    assert_eq!(rows[2].raw_size, 12);
    assert_eq!(rows[2].bucket_name, "\u{1b}[1mtotal\u{1b}[0m");
    assert_eq!(rows[2].human_size, "\u{1b}[1m12 B\u{1b}[0m");
    assert_eq!(rows[0].human_size, "5 B");
    assert_eq!(calculate_sum(&rows[..2].to_vec()), Some(12));
    assert_eq!(calculate_sum(&vec![UsageTable::new("a", i64::MAX), UsageTable::new("b", 1)]), None);
    assert!(usage_rows(&vec![("a".to_string(), i64::MAX), ("b".to_string(), 1)]).is_none());
}

#[test]
fn python_errors_carry_the_hint() {
    let ok: ApiResponse<u32> = ApiResponse { success: true, errors: None, messages: None, result: Some(7) };
    assert_eq!(ok.to_python_error("usage"), Ok(7));
    let empty: ApiResponse<u32> = ApiResponse { success: true, errors: None, messages: None, result: None };
    let err = empty.to_python_error("usage").unwrap_err();
    assert_eq!(err.kind, PythonErrorKind::RuntimeError);
    assert_eq!(err.message, "Expected result data but got None!");
    let failed: ApiResponse<u32> = ApiResponse {
        success: false,
        errors: Some(vec![ApiError { code: 1, message: "bad".to_string() }]),
        messages: None,
        result: None,
    };
    let err = failed.to_python_error("bucket").unwrap_err();
    assert_eq!(err.kind, PythonErrorKind::ValueError);
    assert_eq!(err.message, "[bucket] bad\n");
    let vague: ApiResponse<u32> = ApiResponse { success: false, errors: None, messages: None, result: None };
    assert_eq!(
        vague.to_python_error("verify").unwrap_err().message,
        "Something went wrong for verify, but no specific information was provided."
    );
}
