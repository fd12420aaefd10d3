use imdb_api::client::{
    build_resource_url, credentials_from_fields, existence_check_url, parse_credentials_response,
    parse_resource_response, status_indicates_existence, substitute_id, bootstrap_body,
    bootstrap_url,
};
use imdb_api::{is_valid_imdb_id, validate_imdb_id, Credentials, ImdbApiError, Signer};

const FIXED_DATE: &str = "Mon, 01 Jan 2024 00:00:00 GMT";

fn test_credentials() -> Credentials {
    Credentials {
        access_key_id: "test_key".to_string(),
        secret_access_key: "test_secret".to_string(),
        session_token: "test_token".to_string(),
    }
}

#[test]
fn test_is_valid_imdb_id() {
    assert!(is_valid_imdb_id("tt0111161"));
    assert!(is_valid_imdb_id("nm0000151"));
    assert!(!is_valid_imdb_id("invalid"));
    assert!(!is_valid_imdb_id("tt123"));
}

#[test]
fn test_validate_imdb_id() {
    assert!(validate_imdb_id("tt0111161"));
    assert!(validate_imdb_id("nm0000151"));
    assert!(!validate_imdb_id("invalid"));
    assert!(!validate_imdb_id("tt123"));
}

#[test]
fn test_validate_imdb_id_edges() {
    assert!(!validate_imdb_id(""));
    assert!(!validate_imdb_id("tt01111611"));
    assert!(!validate_imdb_id("t10111161"));
    assert!(!validate_imdb_id("tt011116a"));
    assert!(validate_imdb_id("AB1234567"));
}

#[test]
fn test_signer_creates_headers() {
    let creds = test_credentials();

    let result = Signer::sign("https://api.imdbws.com/test", &creds);
    assert!(result.is_ok());

    let headers = result.unwrap();
    assert!(!headers.x_amz_date.is_empty());
    assert!(!headers.x_amz_security_token.is_empty());
    assert!(!headers.x_amzn_authorization.is_empty());
}

#[test]
fn test_canonical_string_exact() {
    let s = Signer::string_to_sign("/test", FIXED_DATE, "test_token");
    assert_eq!(
        s,
        "GET\n/test\n\nhost:api.imdbws.com\nx-amz-date:Mon, 01 Jan 2024 00:00:00 GMT\nx-amz-security-token:test_token\n\n"
    );
}

#[test]
fn test_sign_at_is_deterministic() {
    let creds = test_credentials();
    let first = Signer::sign_at("https://api.imdbws.com/test", FIXED_DATE, &creds).unwrap();
    let second = Signer::sign_at("https://api.imdbws.com/test", FIXED_DATE, &creds).unwrap();

    assert_eq!(first.x_amz_date, second.x_amz_date);
    assert_eq!(first.x_amz_security_token, second.x_amz_security_token);
    assert_eq!(first.x_amzn_authorization, second.x_amzn_authorization);

    assert_eq!(first.x_amz_date, FIXED_DATE);
    assert_eq!(first.x_amz_security_token, "test_token");
    assert_eq!(
        first.x_amzn_authorization,
        "AWS3 AWSAccessKeyId=test_key,Algorithm=HmacSHA256,SignedHeaders=Host;X-Amz-Date;X-Amz-Security-Token,Signature=cv+XG3LlhQy5nbA9Ih2TXyPPBYXrMrBV/D9qTLfJV0w="
    );
    let signature = first
        .x_amzn_authorization
        .rsplit("Signature=")
        .next()
        .unwrap();
    assert_eq!(signature.len(), 44);
}

#[test]
fn test_sign_at_ignores_query_string() {
    let creds = test_credentials();
    let plain = Signer::sign_at("https://api.imdbws.com/test", FIXED_DATE, &creds).unwrap();
    let with_query =
        Signer::sign_at("https://api.imdbws.com/test?foo=bar", FIXED_DATE, &creds).unwrap();
    assert_eq!(plain.x_amzn_authorization, with_query.x_amzn_authorization);
}

#[test]
fn test_sign_rejects_malformed_url() {
    let creds = test_credentials();
    let result = Signer::sign_at("not a url", FIXED_DATE, &creds);
    assert!(matches!(result, Err(ImdbApiError::SigningError(_))));
    let result = Signer::sign("not a url", &creds);
    assert!(matches!(result, Err(ImdbApiError::SigningError(_))));
}

#[test]
fn test_credentials_from_fields_complete() {
    let creds = credentials_from_fields(
        Some("k".to_string()),
        Some("s".to_string()),
        Some("t".to_string()),
    )
    .unwrap();
    assert_eq!(creds.access_key_id, "k");
    assert_eq!(creds.secret_access_key, "s");
    assert_eq!(creds.session_token, "t");
}

#[test]
fn test_credentials_from_fields_missing_secret() {
    let result = credentials_from_fields(Some("k".to_string()), None, Some("t".to_string()));
    assert!(matches!(result, Err(ImdbApiError::AuthenticationError)));
}

#[test]
fn test_parse_credentials_response_success() {
    let body = "{\"resource\": {\"accessKeyId\": \"k\", \"secretAccessKey\": \"s\", \"sessionToken\": \"t\"}}";
    let creds = parse_credentials_response(200, body).unwrap();
    assert_eq!(creds.access_key_id, "k");
    assert_eq!(creds.secret_access_key, "s");
    assert_eq!(creds.session_token, "t");
}

#[test]
fn test_parse_credentials_response_missing_secret() {
    let body = "{\"resource\": {\"accessKeyId\": \"k\", \"sessionToken\": \"t\"}}";
    let result = parse_credentials_response(200, body);
    assert!(matches!(result, Err(ImdbApiError::AuthenticationError)));
}

#[test]
fn test_parse_credentials_response_failures() {
    let body = "{\"resource\": {\"accessKeyId\": \"k\", \"secretAccessKey\": \"s\", \"sessionToken\": \"t\"}}";
    assert!(matches!(
        parse_credentials_response(500, body),
        Err(ImdbApiError::AuthenticationError)
    ));
    assert!(matches!(
        parse_credentials_response(200, "not json"),
        Err(ImdbApiError::AuthenticationError)
    ));
    assert!(matches!(
        parse_credentials_response(200, "{\"resource\": 3}"),
        Err(ImdbApiError::AuthenticationError)
    ));
    assert!(matches!(
        parse_credentials_response(200, "{}"),
        Err(ImdbApiError::AuthenticationError)
    ));
}

#[test]
fn test_parse_resource_response_non_success_status() {
    let result = parse_resource_response(404, "{\"resource\": {\"a\": 1}}");
    assert!(matches!(result, Err(ImdbApiError::ApiError(404))));
    let result = parse_resource_response(500, "");
    assert!(matches!(result, Err(ImdbApiError::ApiError(500))));
}

#[test]
fn test_parse_resource_response_unwraps_envelope() {
    let text = parse_resource_response(200, "{\"resource\": {\"title\": \"x\", \"year\": 1994}}")
        .unwrap();
    let value: serde_json::Value = serde_json::from_str(&text).unwrap();
    let expected: serde_json::Value =
        serde_json::from_str("{\"title\": \"x\", \"year\": 1994}").unwrap();
    assert_eq!(value, expected);
}

#[test]
fn test_parse_resource_response_null_passthrough() {
    let text = parse_resource_response(200, "{\"other\": 1}").unwrap();
    assert_eq!(text, "null");
    let text = parse_resource_response(200, "{\"resource\": null}").unwrap();
    assert_eq!(text, "null");
}

#[test]
fn test_parse_resource_response_bad_body() {
    let result = parse_resource_response(200, "not json");
    assert!(matches!(result, Err(ImdbApiError::DecodeError(_))));
}

#[test]
fn test_status_indicates_existence() {
    assert!(status_indicates_existence(200));
    assert!(status_indicates_existence(301));
    assert!(status_indicates_existence(302));
    assert!(status_indicates_existence(307));
    assert!(status_indicates_existence(308));
    assert!(!status_indicates_existence(404));
    assert!(!status_indicates_existence(500));
    assert!(!status_indicates_existence(199));
}

#[test]
fn test_existence_check_url() {
    assert_eq!(
        existence_check_url("tt0111161").as_deref(),
        Some("https://www.imdb.com/title/tt0111161/")
    );
    assert_eq!(existence_check_url("invalid"), None);
}

#[test]
fn test_substitute_id() {
    assert_eq!(
        substitute_id("/title/{imdb_id}/plot", "tt0111161"),
        "/title/tt0111161/plot"
    );
    assert_eq!(substitute_id("/chart/titlemeter", "tt0111161"), "/chart/titlemeter");
    assert_eq!(
        substitute_id("{imdb_id}/{imdb_id}", "nm0000151"),
        "nm0000151/nm0000151"
    );
    assert_eq!(substitute_id("", "tt0111161"), "");
}

#[test]
fn test_build_resource_url() {
    assert_eq!(
        build_resource_url("/title/{imdb_id}/auxiliary", "tt0111161"),
        "https://api.imdbws.com/title/tt0111161/auxiliary"
    );
}

#[test]
fn test_bootstrap_request_parts() {
    assert_eq!(
        bootstrap_url(),
        "https://api.imdbws.com/authentication/credentials/temporary/ios82?="
    );
    assert_eq!(
        bootstrap_body(),
        "{\"appKey\": \"76a6cc20-6073-4290-8a2c-951b4580ae4a\"}"
    );
}
